use vstd::prelude::*;

use crate::error::DomainError;
use crate::ids::{TeamId, UserId};

verus! {

/// What a user may do.
#[derive(Debug, Clone, Copy, PartialEq, Eq, Structural)]
pub enum Role {
    Admin,
    User,
    Viewer,
}

/// E.164: a leading `+` followed by 7 to 15 decimal digits (8 to 16 characters in all).
pub open spec fn is_e164(s: Seq<char>) -> bool {
    &&& 8 <= s.len() <= 16
    &&& s[0] == '+'
    &&& forall|i: int| 1 <= i < s.len() ==> '0' <= #[trigger] s[i] <= '9'
}

/// A phone number in E.164 form.
#[derive(Debug, Clone, PartialEq, Eq)]
pub struct Phone(String);

impl View for Phone {
    type V = Seq<char>;

    closed spec fn view(&self) -> Seq<char> {
        self.0@
    }
}

impl Phone {
    /// Fails with `InvalidPhoneFormat` exactly when `number` is not E.164.
    pub fn new(number: &str) -> (r: Result<Phone, DomainError>)
        ensures
            match r {
                Ok(p) => is_e164(number@) && p@ == number@,
                Err(e) => !is_e164(number@) && e == DomainError::InvalidPhoneFormat,
            },
    {
        if !Self::is_valid_e164(number) {
            return Err(DomainError::InvalidPhoneFormat);
        }
        Ok(Phone(String::from_str(number)))
    }

    /// Whether `number` is E.164.
    pub fn is_valid_e164(number: &str) -> (r: bool)
        ensures
            r == is_e164(number@),
    {
        let n = number.unicode_len();
        if n < 8 || n > 16 {
            return false;
        }
        if number.get_char(0) != '+' {
            return false;
        }
        let mut i: usize = 1;
        while i < n
            invariant
                n == number@.len(),
                1 <= i <= n,
                forall|j: int| 1 <= j < i ==> '0' <= #[trigger] number@[j] <= '9',
            decreases n - i,
        {
            let c = number.get_char(i);
            if c < '0' || c > '9' {
                return false;
            }
            i = i + 1;
        }
        true
    }

    pub fn as_str(&self) -> (r: &str)
        ensures
            r@ == self@,
    {
        self.0.as_str()
    }
}

/// A user as plain values.
pub struct UserView {
    pub id: UserId,
    pub username: Seq<char>,
    pub email: Seq<char>,
    pub slack_id: Option<Seq<char>>,
    pub discord_id: Option<Seq<char>>,
    pub telegram_id: Option<Seq<char>>,
    pub whatsapp_id: Option<Seq<char>>,
    pub phone: Option<Seq<char>>,
    pub role: Role,
}

pub open spec fn opt_text(o: Option<String>) -> Option<Seq<char>> {
    match o {
        Some(s) => Some(s@),
        None => None,
    }
}

/// A person who can be notified, with the channel handles they have registered.
#[derive(Debug, Clone)]
pub struct User {
    id: UserId,
    username: String,
    email: String,
    slack_id: Option<String>,
    discord_id: Option<String>,
    telegram_id: Option<String>,
    whatsapp_id: Option<String>,
    phone: Option<Phone>,
    role: Role,
}

impl View for User {
    type V = UserView;

    closed spec fn view(&self) -> UserView {
        UserView {
            id: self.id,
            username: self.username@,
            email: self.email@,
            slack_id: opt_text(self.slack_id),
            discord_id: opt_text(self.discord_id),
            telegram_id: opt_text(self.telegram_id),
            whatsapp_id: opt_text(self.whatsapp_id),
            phone: match self.phone {
                Some(p) => Some(p@),
                None => None,
            },
            role: self.role,
        }
    }
}

/// Reachable through at least one personal channel: phone, Slack, Discord, Telegram or WhatsApp.
pub open spec fn reachable(u: UserView) -> bool {
    u.phone is Some || u.slack_id is Some || u.discord_id is Some || u.telegram_id is Some
        || u.whatsapp_id is Some
}

impl User {
    /// A fresh user with no channel handles.
    pub fn new(username: String, email: String, role: Role) -> (r: User)
        ensures
            r@.username == username@,
            r@.email == email@,
            r@.role == role,
            r@.slack_id is None,
            r@.discord_id is None,
            r@.telegram_id is None,
            r@.whatsapp_id is None,
            r@.phone is None,
    {
        User {
            id: UserId::new(),
            username,
            email,
            slack_id: None,
            discord_id: None,
            telegram_id: None,
            whatsapp_id: None,
            phone: None,
            role,
        }
    }

    /// Rebuilds a stored user without channel handles; the caller sets them afterwards.
    pub fn restore(id: UserId, username: String, email: String, role: Role) -> (r: User)
        ensures
            r@ == (UserView {
                id,
                username: username@,
                email: email@,
                slack_id: None,
                discord_id: None,
                telegram_id: None,
                whatsapp_id: None,
                phone: None,
                role,
            }),
    {
        User {
            id,
            username,
            email,
            slack_id: None,
            discord_id: None,
            telegram_id: None,
            whatsapp_id: None,
            phone: None,
            role,
        }
    }

    /// Whether any personal channel can reach the user.
    pub fn can_be_on_call(&self) -> (r: bool)
        ensures
            r == reachable(self@),
    {
        self.phone.is_some() || self.slack_id.is_some() || self.discord_id.is_some()
            || self.telegram_id.is_some() || self.whatsapp_id.is_some()
    }

    pub fn set_phone(&mut self, phone: Phone)
        ensures
            final(self)@ == (UserView { phone: Some(phone@), ..old(self)@ }),
    {
        self.phone = Some(phone);
    }

    pub fn set_slack_id(&mut self, id: String)
        ensures
            final(self)@ == (UserView { slack_id: Some(id@), ..old(self)@ }),
    {
        self.slack_id = Some(id);
    }

    pub fn set_discord_id(&mut self, id: String)
        ensures
            final(self)@ == (UserView { discord_id: Some(id@), ..old(self)@ }),
    {
        self.discord_id = Some(id);
    }

    pub fn set_telegram_id(&mut self, id: String)
        ensures
            final(self)@ == (UserView { telegram_id: Some(id@), ..old(self)@ }),
    {
        self.telegram_id = Some(id);
    }

    pub fn set_whatsapp_id(&mut self, id: String)
        ensures
            final(self)@ == (UserView { whatsapp_id: Some(id@), ..old(self)@ }),
    {
        self.whatsapp_id = Some(id);
    }

    pub fn id(&self) -> (r: &UserId)
        ensures
            *r == self@.id,
    {
        &self.id
    }

    pub fn username(&self) -> (r: &str)
        ensures
            r@ == self@.username,
    {
        self.username.as_str()
    }

    pub fn email(&self) -> (r: &str)
        ensures
            r@ == self@.email,
    {
        self.email.as_str()
    }

    pub fn slack_id(&self) -> (r: Option<&str>)
        ensures
            match r {
                Some(t) => self@.slack_id == Some(t@),
                None => self@.slack_id is None,
            },
    {
        match &self.slack_id {
            Some(t) => Some(t.as_str()),
            None => None,
        }
    }

    pub fn discord_id(&self) -> (r: Option<&str>)
        ensures
            match r {
                Some(t) => self@.discord_id == Some(t@),
                None => self@.discord_id is None,
            },
    {
        match &self.discord_id {
            Some(t) => Some(t.as_str()),
            None => None,
        }
    }

    pub fn telegram_id(&self) -> (r: Option<&str>)
        ensures
            match r {
                Some(t) => self@.telegram_id == Some(t@),
                None => self@.telegram_id is None,
            },
    {
        match &self.telegram_id {
            Some(t) => Some(t.as_str()),
            None => None,
        }
    }

    pub fn whatsapp_id(&self) -> (r: Option<&str>)
        ensures
            match r {
                Some(t) => self@.whatsapp_id == Some(t@),
                None => self@.whatsapp_id is None,
            },
    {
        match &self.whatsapp_id {
            Some(t) => Some(t.as_str()),
            None => None,
        }
    }

    pub fn role(&self) -> (r: Role)
        ensures
            r == self@.role,
    {
        self.role
    }

    pub fn phone(&self) -> (r: Option<&Phone>)
        ensures
            match r {
                Some(p) => self@.phone == Some(p@),
                None => self@.phone is None,
            },
    {
        match &self.phone {
            Some(p) => Some(p),
            None => None,
        }
    }
}

/// A team as plain values.
pub struct TeamView {
    pub id: TeamId,
    pub name: Seq<char>,
    pub members: Seq<UserId>,
}

/// A named group of users that an escalation step can target as a whole.
#[derive(Debug, Clone)]
pub struct Team {
    id: TeamId,
    name: String,
    members: Vec<UserId>,
}

impl View for Team {
    type V = TeamView;

    closed spec fn view(&self) -> TeamView {
        TeamView { id: self.id, name: self.name@, members: self.members@ }
    }
}

impl Team {
    /// Fails with `TeamRequiresMember` exactly when `members` is empty.
    pub fn new(name: String, members: Vec<UserId>) -> (r: Result<Team, DomainError>)
        ensures
            members@.len() == 0 <==> r == Err::<Team, DomainError>(DomainError::TeamRequiresMember),
            members@.len() > 0 ==> r is Ok,
            r matches Ok(t) ==> t@.name == name@ && t@.members == members@,
    {
        if members.len() == 0 {
            return Err(DomainError::TeamRequiresMember);
        }
        Ok(Team { id: TeamId::new(), name, members })
    }

    /// Rebuilds a stored team; fails with `TeamRequiresMember` exactly when `members` is empty.
    pub fn restore(id: TeamId, name: String, members: Vec<UserId>) -> (r: Result<Team, DomainError>)
        ensures
            members@.len() == 0 <==> r == Err::<Team, DomainError>(DomainError::TeamRequiresMember),
            members@.len() > 0 ==> r is Ok,
            r matches Ok(t) ==> t@ == (TeamView { id, name: name@, members: members@ }),
    {
        if members.len() == 0 {
            return Err(DomainError::TeamRequiresMember);
        }
        Ok(Team { id, name, members })
    }

    pub fn id(&self) -> (r: &TeamId)
        ensures
            *r == self@.id,
    {
        &self.id
    }

    pub fn name(&self) -> (r: &str)
        ensures
            r@ == self@.name,
    {
        self.name.as_str()
    }

    pub fn members(&self) -> (r: &[UserId])
        ensures
            r@ == self@.members,
    {
        self.members.as_slice()
    }
}

} // verus!
