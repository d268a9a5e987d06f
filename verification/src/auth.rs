//! Volatile in-memory account store: a login/register placeholder that lives
//! for the process only and is never persisted.
//!
//! The store is an owned value (never a process-wide global); its
//! mathematical image is a map from email to account. Emails are pairwise
//! distinct, so the map determines the store's observable behaviour.

use vstd::prelude::*;

verus! {

use vstd::utf8::encode_utf8;
use crate::codec::contains_char;

/// An account as the frontend sees it.
#[derive(Debug)]
pub struct User {
    pub email: String,
    pub password: String,
    pub id: Option<String>,
    pub created_at: Option<String>,
}

/// Mathematical image of a [`User`]: its fields as character sequences.
pub struct UserView {
    pub email: Seq<char>,
    pub password: Seq<char>,
    pub id: Option<Seq<char>>,
    pub created_at: Option<Seq<char>>,
}

impl View for User {
    type V = UserView;

    open spec fn view(&self) -> UserView {
        UserView {
            email: self.email@,
            password: self.password@,
            id: self.id.deep_view(),
            created_at: self.created_at.deep_view(),
        }
    }
}

impl User {
    /// A fresh `User` holding the same values, used where the original is
    /// retained by the store.
    pub fn duplicate(&self) -> (r: User)
        ensures
            r@ == self@,
    {
        User {
            email: self.email.clone(),
            password: self.password.clone(),
            id: match &self.id {
                Some(s) => Some(s.clone()),
                None => None,
            },
            created_at: match &self.created_at {
                Some(s) => Some(s.clone()),
                None => None,
            },
        }
    }
}

/// What a login or register call reports back to the frontend.
#[derive(Debug)]
pub struct AuthResponse {
    pub success: bool,
    pub user: Option<User>,
    pub message: Option<String>,
}

/// Mathematical image of an [`AuthResponse`].
pub struct AuthResponseView {
    pub success: bool,
    pub user: Option<UserView>,
    pub message: Option<Seq<char>>,
}

impl View for AuthResponse {
    type V = AuthResponseView;

    open spec fn view(&self) -> AuthResponseView {
        AuthResponseView {
            success: self.success,
            user: match self.user {
                Some(u) => Some(u@),
                None => None,
            },
            message: self.message.deep_view(),
        }
    }
}

/// An email passes the (deliberately loose) format check when it holds both
/// an `@` and a `.`.
pub open spec fn valid_email(email: Seq<char>) -> bool {
    email.contains('@') && email.contains('.')
}

/// A password passes the length check when its UTF-8 form is exactly 8 bytes.
pub open spec fn valid_password(password: Seq<char>) -> bool {
    encode_utf8(password).len() == 8
}

pub open spec fn invalid_email_message() -> Seq<char> {
    "请输入有效的邮箱地址"@
}

pub open spec fn invalid_password_message() -> Seq<char> {
    "密码必须是8位"@
}

pub open spec fn unknown_user_message() -> Seq<char> {
    "用户不存在"@
}

pub open spec fn wrong_password_message() -> Seq<char> {
    "密码错误"@
}

pub open spec fn existing_user_message() -> Seq<char> {
    "用户已存在"@
}

/// A rejected call: no user, the given message.
pub open spec fn failure_response(message: Seq<char>) -> AuthResponseView {
    AuthResponseView { success: false, user: None, message: Some(message) }
}

/// An accepted call: the given user, no message.
pub open spec fn success_response(user: UserView) -> AuthResponseView {
    AuthResponseView { success: true, user: Some(user), message: None }
}

/// Relies on `uuid::Uuid::new_v4` and its display form: a random version-4
/// identifier rendered in the 36-character hyphenated format. The value
/// depends on the process's randomness source, so nothing beyond its length
/// is promised of it.
#[verifier::external_body]
fn fresh_user_id() -> (r: String)
    ensures
        r@.len() == 36,
{
    uuid::Uuid::new_v4().to_string()
}

/// Relies on `chrono::Utc::now` and `DateTime::to_rfc3339`: the current time
/// rendered as an RFC 3339 date-and-time string. The value depends on the
/// clock, so nothing beyond non-emptiness is promised of it.
#[verifier::external_body]
fn current_timestamp() -> (r: String)
    ensures
        r@.len() > 0,
{
    chrono::Utc::now().to_rfc3339()
}

/// The account store. Lives only as long as its owner; nothing is persisted.
pub struct UserStore {
    users: Vec<User>,
}

impl View for UserStore {
    type V = Map<Seq<char>, UserView>;

    closed spec fn view(&self) -> Map<Seq<char>, UserView> {
        Map::new(|email: Seq<char>| self.has_email(email), |email: Seq<char>| self.users@[self.email_index(email)]@)
    }
}

impl UserStore {
    /// Emails are pairwise distinct, so each email names at most one account.
    pub closed spec fn wf(&self) -> bool {
        forall|i: int, j: int|
            0 <= i < j < self.users@.len() ==> self.users@[i].email@ != self.users@[j].email@
    }

    spec fn has_email(&self, email: Seq<char>) -> bool {
        exists|i: int| 0 <= i < self.users@.len() && self.users@[i].email@ == email
    }

    spec fn email_index(&self, email: Seq<char>) -> int {
        choose|i: int| 0 <= i < self.users@.len() && self.users@[i].email@ == email
    }

    /// An empty store.
    pub fn new() -> (r: UserStore)
        ensures
            r.wf(),
            r@ == Map::<Seq<char>, UserView>::empty(),
    {
        let r = UserStore { users: Vec::new() };
        proof {
            assert(r@ =~= Map::<Seq<char>, UserView>::empty());
        }
        r
    }

    /// Position of the account with the given email, if any.
    fn find_index(&self, email: &String) -> (r: Option<usize>)
        requires
            self.wf(),
        ensures
            match r {
                Some(i) => i < self.users@.len() && self.users@[i as int].email@ == email@
                    && self@.contains_key(email@) && self@[email@] == self.users@[i as int]@,
                None => !self@.contains_key(email@),
            },
    {
        let n = self.users.len();
        let mut i: usize = 0;
        while i < n
            invariant
                self.wf(),
                n == self.users@.len(),
                i <= n,
                forall|j: int| 0 <= j < i ==> self.users@[j].email@ != email@,
            decreases n - i,
        {
            if self.users[i].email == *email {
                proof {
                    assert(self.users@[i as int].email@ == email@);
                    assert(self.has_email(email@));
                    let j = self.email_index(email@);
                    assert(0 <= j < self.users@.len() && self.users@[j].email@ == email@);
                    assert(j == i) by {
                        if j < i {
                            assert(self.users@[j].email@ != self.users@[i as int].email@);
                        } else if i < j {
                            assert(self.users@[i as int].email@ != self.users@[j].email@);
                        }
                    }
                }
                return Some(i);
            }
            i += 1;
        }
        proof {
            assert(!self.has_email(email@));
        }
        None
    }

    /// Pushing an account whose email is not yet in the store keeps the
    /// store well formed and extends its map by exactly that account.
    proof fn lemma_push_extends_view(pre: Self, post: Self, user: User)
        requires
            pre.wf(),
            !pre@.contains_key(user.email@),
            post.users@ == pre.users@.push(user),
        ensures
            post.wf(),
            post@ == pre@.insert(user.email@, user@),
    {
        let n = pre.users@.len() as int;
        assert(!pre.has_email(user.email@));
        assert forall|i: int, j: int| 0 <= i < j < post.users@.len() implies post.users@[i].email@
            != post.users@[j].email@ by {
            assert(post.users@[i] == pre.users@[i]);
            if j < n {
                assert(post.users@[j] == pre.users@[j]);
            } else {
                assert(post.users@[j] == user);
                assert(pre.users@[i].email@ != user.email@);
            }
        }
        assert(post.users@[n] == user);
        assert(post.has_email(user.email@));
        assert forall|k: Seq<char>| #[trigger] post.has_email(k) && k != user.email@ implies
            pre.has_email(k) by {
            let i = choose|i: int| 0 <= i < post.users@.len() && post.users@[i].email@ == k;
            assert(i < n);
            assert(post.users@[i] == pre.users@[i]);
        }
        assert forall|k: Seq<char>| #[trigger] pre.has_email(k) implies post.has_email(k) by {
            let i = choose|i: int| 0 <= i < pre.users@.len() && pre.users@[i].email@ == k;
            assert(post.users@[i] == pre.users@[i]);
            assert(post.users@[i].email@ == k);
        }
        assert forall|k: Seq<char>| #[trigger] post.has_email(k) implies post.users@[post.email_index(
            k,
        )]@ == (if k == user.email@ {
            user@
        } else {
            pre.users@[pre.email_index(k)]@
        }) by {
            let i = post.email_index(k);
            assert(0 <= i < post.users@.len() && post.users@[i].email@ == k);
            if k == user.email@ {
                assert(i == n) by {
                    if i < n {
                        assert(post.users@[i] == pre.users@[i]);
                        assert(pre.has_email(k));
                    }
                }
                assert(post.users@[i] == user);
            } else {
                assert(i < n);
                assert(post.users@[i] == pre.users@[i]);
                assert(pre.has_email(k));
                let j = pre.email_index(k);
                assert(0 <= j < n && pre.users@[j].email@ == k);
                assert(i == j) by {
                    if i < j {
                        assert(pre.users@[i].email@ != pre.users@[j].email@);
                    } else if j < i {
                        assert(pre.users@[j].email@ != pre.users@[i].email@);
                    }
                }
            }
        }
        assert(post@ =~= pre@.insert(user.email@, user@));
    }

    /// Register a new account. Rejections carry the message that names the
    /// first failed check, in this order: email format, password length,
    /// email already taken; they leave the store unchanged. Success stores a
    /// fresh account with a generated identifier and creation timestamp and
    /// returns it.
    pub fn register(&mut self, email: String, password: String) -> (r: AuthResponse)
        requires
            old(self).wf(),
        ensures
            final(self).wf(),
            !valid_email(email@) ==> final(self)@ == old(self)@ && r@ == failure_response(
                invalid_email_message(),
            ),
            valid_email(email@) && !valid_password(password@) ==> final(self)@ == old(self)@
                && r@ == failure_response(invalid_password_message()),
            valid_email(email@) && valid_password(password@) && old(self)@.contains_key(email@)
                ==> final(self)@ == old(self)@ && r@ == failure_response(existing_user_message()),
            valid_email(email@) && valid_password(password@) && !old(self)@.contains_key(email@)
                ==> (r@.user matches Some(u) && r@.success && r@.message is None && u.email
                == email@ && u.password == password@ && u.id is Some && u.created_at is Some
                && final(self)@ == old(self)@.insert(email@, u)),
    {
        if !contains_char(email.as_str(), '@') || !contains_char(email.as_str(), '.') {
            return AuthResponse {
                success: false,
                user: None,
                message: Some("请输入有效的邮箱地址".to_owned()),
            };
        }
        if password.as_str().as_bytes().len() != 8 {
            return AuthResponse {
                success: false,
                user: None,
                message: Some("密码必须是8位".to_owned()),
            };
        }
        if self.find_index(&email).is_some() {
            return AuthResponse {
                success: false,
                user: None,
                message: Some("用户已存在".to_owned()),
            };
        }
        let ghost pre = *self;
        let user = User {
            email,
            password,
            id: Some(fresh_user_id()),
            created_at: Some(current_timestamp()),
        };
        let response_user = user.duplicate();
        let ghost guser = user;
        self.users.push(user);
        proof {
            Self::lemma_push_extends_view(pre, *self, guser);
        }
        AuthResponse { success: true, user: Some(response_user), message: None }
    }

    /// Log an account in. Rejections carry the message that names the first
    /// failed check, in this order: email format, password length, unknown
    /// email, wrong password. Success returns the stored account.
    pub fn login(&self, email: String, password: String) -> (r: AuthResponse)
        requires
            self.wf(),
        ensures
            !valid_email(email@) ==> r@ == failure_response(invalid_email_message()),
            valid_email(email@) && !valid_password(password@) ==> r@ == failure_response(
                invalid_password_message(),
            ),
            valid_email(email@) && valid_password(password@) && !self@.contains_key(email@)
                ==> r@ == failure_response(unknown_user_message()),
            valid_email(email@) && valid_password(password@) && self@.contains_key(email@)
                && self@[email@].password != password@ ==> r@ == failure_response(
                wrong_password_message(),
            ),
            valid_email(email@) && valid_password(password@) && self@.contains_key(email@)
                && self@[email@].password == password@ ==> r@ == success_response(self@[email@]),
    {
        if !contains_char(email.as_str(), '@') || !contains_char(email.as_str(), '.') {
            return AuthResponse {
                success: false,
                user: None,
                message: Some("请输入有效的邮箱地址".to_owned()),
            };
        }
        if password.as_str().as_bytes().len() != 8 {
            return AuthResponse {
                success: false,
                user: None,
                message: Some("密码必须是8位".to_owned()),
            };
        }
        match self.find_index(&email) {
            None => AuthResponse {
                success: false,
                user: None,
                message: Some("用户不存在".to_owned()),
            },
            Some(i) => {
                let stored = &self.users[i];
                if stored.password == password {
                    AuthResponse { success: true, user: Some(stored.duplicate()), message: None }
                } else {
                    AuthResponse {
                        success: false,
                        user: None,
                        message: Some("密码错误".to_owned()),
                    }
                }
            },
        }
    }
}

} // verus!
