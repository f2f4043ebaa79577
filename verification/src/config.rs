//! Configuration data model: named credentials and the hook table.
//!
//! Maps from the configuration file are kept as ordered association lists
//! (key/value pairs in file order); lookups take the first entry whose key
//! matches, so the model also gives a meaning to a file with repeated keys.

use vstd::prelude::*;

pub mod dynamic;
pub mod loader;
pub mod parse;
pub mod static_conf;

verus! {

/// One named credential: HTTP Basic (username and password) or Bearer (a token).
#[derive(Clone)]
pub enum Auth {
    Basic(BasicAuth),
    Bearer(BearerAuth),
}

/// The secrets of a Basic credential.
#[derive(Clone)]
pub struct BasicAuth {
    pub username: String,
    pub password: String,
}

/// The secret of a Bearer credential.
#[derive(Clone)]
pub struct BearerAuth {
    pub token: String,
}

/// One hook: the command to run, how to run it, and who may trigger it.
#[derive(Clone)]
pub struct Hook {
    pub command: String,
    pub method: Option<String>,
    pub auth: Option<Vec<String>>,
    pub args: Option<Vec<String>>,
    pub env: Option<Vec<(String, String)>>,
}

/// Listen address and similar server settings of the combined configuration.
#[derive(Clone)]
pub struct Server {
    pub address: Option<String>,
}

/// A combined configuration: server settings, credential store, hook table.
#[derive(Clone)]
pub struct Config {
    pub server: Option<Server>,
    pub auth: Vec<(String, Auth)>,
    pub hooks: Vec<(String, Hook)>,
}

/// Mathematical image of a credential: its secrets as character sequences.
pub enum AuthView {
    Basic { username: Seq<char>, password: Seq<char> },
    Bearer { token: Seq<char> },
}

/// Mathematical image of a hook.
pub struct HookView {
    pub command: Seq<char>,
    pub method: Option<Seq<char>>,
    pub auth: Option<Seq<Seq<char>>>,
    pub args: Option<Seq<Seq<char>>>,
    pub env: Option<Seq<(Seq<char>, Seq<char>)>>,
}

/// Mathematical image of the server settings.
pub struct ServerView {
    pub address: Option<Seq<char>>,
}

/// Mathematical image of a combined configuration.
pub struct ConfigView {
    pub server: Option<ServerView>,
    pub auth: Seq<(Seq<char>, AuthView)>,
    pub hooks: Seq<(Seq<char>, HookView)>,
}

pub open spec fn view_opt_string(o: Option<String>) -> Option<Seq<char>> {
    match o {
        Option::Some(s) => Option::Some(s@),
        Option::None => Option::None,
    }
}

pub open spec fn view_string_seq(v: Seq<String>) -> Seq<Seq<char>> {
    v.map_values(|s: String| s@)
}

pub open spec fn view_opt_string_seq(o: Option<Vec<String>>) -> Option<Seq<Seq<char>>> {
    match o {
        Option::Some(v) => Option::Some(view_string_seq(v@)),
        Option::None => Option::None,
    }
}

pub open spec fn view_env_seq(v: Seq<(String, String)>) -> Seq<(Seq<char>, Seq<char>)> {
    v.map_values(|p: (String, String)| (p.0@, p.1@))
}

impl View for Auth {
    type V = AuthView;

    open spec fn view(&self) -> AuthView {
        match self {
            Auth::Basic(b) => (AuthView::Basic { username: b.username@, password: b.password@ }),
            Auth::Bearer(b) => (AuthView::Bearer { token: b.token@ }),
        }
    }
}

impl View for Hook {
    type V = HookView;

    open spec fn view(&self) -> HookView {
        HookView {
            command: self.command@,
            method: view_opt_string(self.method),
            auth: view_opt_string_seq(self.auth),
            args: view_opt_string_seq(self.args),
            env: match self.env {
                Option::Some(v) => Option::Some(view_env_seq(v@)),
                Option::None => Option::None,
            },
        }
    }
}

impl View for Server {
    type V = ServerView;

    open spec fn view(&self) -> ServerView {
        ServerView { address: view_opt_string(self.address) }
    }
}

/// The image of an association list: each key as a character sequence beside
/// the image of its value.
pub open spec fn entries_view<T: View>(entries: Seq<(String, T)>) -> Seq<(Seq<char>, T::V)> {
    entries.map_values(|p: (String, T)| (p.0@, p.1@))
}

impl View for Config {
    type V = ConfigView;

    open spec fn view(&self) -> ConfigView {
        ConfigView {
            server: match self.server {
                Option::Some(s) => Option::Some(s@),
                Option::None => Option::None,
            },
            auth: entries_view(self.auth@),
            hooks: entries_view(self.hooks@),
        }
    }
}

/// First-match lookup in an association list.
pub open spec fn assoc_lookup<V>(entries: Seq<(Seq<char>, V)>, key: Seq<char>) -> Option<V>
    decreases entries.len(),
{
    if entries.len() == 0 {
        Option::None
    } else if entries[0].0 == key {
        Option::Some(entries[0].1)
    } else {
        assoc_lookup(entries.drop_first(), key)
    }
}

/// Find the first entry whose key equals `key`.
pub fn assoc_find<'a, T: View>(entries: &'a Vec<(String, T)>, key: &String) -> (r: Option<
    &'a T,
>)
    ensures
        match r {
            Option::Some(v) => assoc_lookup(entries_view(entries@), key@) == Option::Some(v@),
            Option::None => assoc_lookup(entries_view(entries@), key@) is None,
        },
{
    let ghost ev = entries_view(entries@);
    proof {
        assert(ev.skip(0) =~= ev);
    }
    let n = entries.len();
    let mut i: usize = 0;
    while i < n
        invariant
            i <= n,
            n == entries.len(),
            ev == entries_view(entries@),
            assoc_lookup(ev, key@) == assoc_lookup(ev.skip(i as int), key@),
        decreases n - i,
    {
        proof {
            assert(ev[i as int] == (entries@[i as int].0@, entries@[i as int].1@));
            assert(ev.skip(i as int)[0] == ev[i as int]);
        }
        if entries[i].0 == *key {
            return Some(&entries[i].1);
        }
        proof {
            assert(ev.skip(i as int).drop_first() =~= ev.skip(i as int + 1));
        }
        i += 1;
    }
    proof {
        assert(ev.skip(n as int) =~= Seq::<(Seq<char>, T::V)>::empty());
    }
    None
}

} // verus!
