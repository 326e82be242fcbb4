//! A saved connection: its display name and the defaults derived from it.
use vstd::prelude::*;

use crate::text::{trim, trimmed};

verus! {

/// One entry of the address book, or the profile being edited.
pub struct ConnectionProfile {
    pub name: String,
    pub address: String,
    pub port: String,
    pub username: String,
    pub password: String,
}

/// The mathematical content of a profile: its five texts.
pub struct ProfileView {
    pub name: Seq<char>,
    pub address: Seq<char>,
    pub port: Seq<char>,
    pub username: Seq<char>,
    pub password: Seq<char>,
}

impl View for ConnectionProfile {
    type V = ProfileView;

    open spec fn view(&self) -> ProfileView {
        ProfileView {
            name: self.name@,
            address: self.address@,
            port: self.port@,
            username: self.username@,
            password: self.password@,
        }
    }
}

impl Clone for ConnectionProfile {
    fn clone(&self) -> (r: Self)
        ensures
            r@ == self@,
    {
        ConnectionProfile {
            name: self.name.clone(),
            address: self.address.clone(),
            port: self.port.clone(),
            username: self.username.clone(),
            password: self.password.clone(),
        }
    }
}

/// `host` followed by `:` and `port`.
pub open spec fn host_port(host: Seq<char>, port: Seq<char>) -> Seq<char> {
    host + seq![':'] + port
}

/// The name shown for a profile without a name of its own: `address:port`, the address
/// alone when the port is blank, followed by ` (username)` when a username is set; the
/// username alone when the address is blank. All three parts are taken trimmed.
pub open spec fn default_name_spec(p: ProfileView) -> Seq<char> {
    let address = trimmed(p.address);
    let port = trimmed(p.port);
    let username = trimmed(p.username);
    let host = if address.len() == 0 {
        Seq::<char>::empty()
    } else if port.len() == 0 {
        address
    } else {
        host_port(address, port)
    };
    if host.len() == 0 {
        username
    } else if username.len() == 0 {
        host
    } else {
        host + seq![' ', '('] + username + seq![')']
    }
}

/// The name under which a profile is listed: its own trimmed name, or the default name
/// when that is blank.
pub open spec fn display_name_spec(p: ProfileView) -> Seq<char> {
    if trimmed(p.name).len() == 0 {
        default_name_spec(p)
    } else {
        trimmed(p.name)
    }
}

/// The profile as it is stored: every field trimmed but the password, which is kept as typed.
pub open spec fn normalized(p: ProfileView) -> ProfileView {
    ProfileView {
        name: trimmed(p.name),
        address: trimmed(p.address),
        port: trimmed(p.port),
        username: trimmed(p.username),
        password: p.password,
    }
}

/// Two profiles name the same server account: equal address, port and username.
pub open spec fn same_account(a: ProfileView, b: ProfileView) -> bool {
    a.address == b.address && a.port == b.port && a.username == b.username
}

impl ConnectionProfile {
    /// A profile whose five fields are all empty.
    pub fn empty() -> (r: Self)
        ensures
            r@.name.len() == 0,
            r@.address.len() == 0,
            r@.port.len() == 0,
            r@.username.len() == 0,
            r@.password.len() == 0,
    {
        ConnectionProfile {
            name: String::new(),
            address: String::new(),
            port: String::new(),
            username: String::new(),
            password: String::new(),
        }
    }

    /// The name suggested for this profile when it has none of its own.
    pub fn default_name(&self) -> (r: String)
        ensures
            r@ == default_name_spec(self@),
    {
        let address = trim(self.address.as_str());
        let port = trim(self.port.as_str());
        let username = trim(self.username.as_str());
        let host = if address.as_str().is_empty() {
            String::new()
        } else if port.as_str().is_empty() {
            address
        } else {
            let mut h = address;
            h.append(":");
            h.append(port.as_str());
            proof {
                reveal_strlit(":");
            }
            h
        };
        if host.as_str().is_empty() {
            username
        } else if username.as_str().is_empty() {
            host
        } else {
            let mut r = host;
            r.append(" (");
            r.append(username.as_str());
            r.append(")");
            proof {
                reveal_strlit(" (");
                reveal_strlit(")");
            }
            r
        }
    }

    /// The name under which this profile is listed in the address book.
    pub fn display_name(&self) -> (r: String)
        ensures
            r@ == display_name_spec(self@),
    {
        let name = trim(self.name.as_str());
        if name.as_str().is_empty() {
            self.default_name()
        } else {
            name
        }
    }

    /// The profile with its fields trimmed, as the address book stores it.
    pub fn normalized(&self) -> (r: Self)
        ensures
            r@ == normalized(self@),
    {
        ConnectionProfile {
            name: trim(self.name.as_str()),
            address: trim(self.address.as_str()),
            port: trim(self.port.as_str()),
            username: trim(self.username.as_str()),
            password: self.password.clone(),
        }
    }

    /// Whether both profiles name the same address, port and username.
    pub fn same_account(&self, other: &Self) -> (r: bool)
        ensures
            r == same_account(self@, other@),
    {
        self.address == other.address && self.port == other.port && self.username
            == other.username
    }
}

} // verus!
