//! The hot-reloadable part of the configuration: the hook table and the
//! credential store it draws on.

use vstd::prelude::*;
use vstd::string::{StrSliceExecFns, StringExecFns};

pub use crate::config::{Auth, BasicAuth, BearerAuth, Hook};
use crate::config::{AuthView, HookView, entries_view};
use crate::strings::{upper, upper_string};

verus! {

/// A parsed snapshot of the dynamic configuration file: an optional
/// credential store and the hook table.
#[derive(Clone)]
pub struct DynamicConfig {
    pub auth: Option<Vec<(String, Auth)>>,
    pub hooks: Vec<(String, Hook)>,
}

/// Mathematical image of a snapshot.
pub struct DynamicConfigView {
    pub auth: Option<Seq<(Seq<char>, AuthView)>>,
    pub hooks: Seq<(Seq<char>, HookView)>,
}

impl View for DynamicConfig {
    type V = DynamicConfigView;

    open spec fn view(&self) -> DynamicConfigView {
        DynamicConfigView {
            auth: match self.auth {
                Option::Some(v) => Option::Some(entries_view(v@)),
                Option::None => Option::None,
            },
            hooks: entries_view(self.hooks@),
        }
    }
}

/// The credential store a snapshot offers: an absent `auth` section is an
/// empty store.
pub open spec fn store_of(cfg: DynamicConfigView) -> Seq<(Seq<char>, AuthView)> {
    match cfg.auth {
        Option::Some(s) => s,
        Option::None => Seq::<(Seq<char>, AuthView)>::empty(),
    }
}

/// One leading space before each argument of a hook's listing.
pub open spec fn args_text(args: Seq<Seq<char>>) -> Seq<char>
    decreases args.len(),
{
    if args.len() == 0 {
        ""@
    } else {
        " "@ + args[0] + args_text(args.drop_first())
    }
}

/// The tail of a comma-joined name list.
pub open spec fn join_rest(names: Seq<Seq<char>>) -> Seq<char>
    decreases names.len(),
{
    if names.len() == 0 {
        ""@
    } else {
        ", "@ + names[0] + join_rest(names.drop_first())
    }
}

/// Credential names joined with commas.
pub open spec fn join_names(names: Seq<Seq<char>>) -> Seq<char> {
    if names.len() == 0 {
        ""@
    } else {
        names[0] + join_rest(names.drop_first())
    }
}

/// The listing's auth column: the joined names, or NONE where a hook asks
/// for no authentication (absent or empty list alike).
pub open spec fn auth_text(auth: Option<Seq<Seq<char>>>) -> Seq<char> {
    match auth {
        Option::None => "NONE"@,
        Option::Some(names) => if names.len() == 0 {
            "NONE"@
        } else {
            join_names(names)
        },
    }
}

/// One hook's line of the listing: method (or ANY), path, command and
/// arguments, then the auth column.
pub open spec fn hook_text(path: Seq<char>, h: HookView) -> Seq<char> {
    (match h.method {
        Option::Some(m) => "-> "@ + upper(m) + " "@,
        Option::None => "-> ANY "@,
    }) + "/"@ + path + " : "@ + h.command + (match h.args {
        Option::Some(a) => args_text(a),
        Option::None => ""@,
    }) + "\n   Auth: "@ + auth_text(h.auth) + "\n"@
}

/// The whole listing, hook by hook in table order.
pub open spec fn render_text(hooks: Seq<(Seq<char>, HookView)>) -> Seq<char>
    decreases hooks.len(),
{
    if hooks.len() == 0 {
        ""@
    } else {
        hook_text(hooks[0].0, hooks[0].1) + render_text(hooks.drop_first())
    }
}

impl DynamicConfig {
    /// A human-readable listing of the hook table, one hook per line with
    /// its method, command, arguments and accepted credential names.
    #[verifier::rlimit(100)]
    pub fn render(&self) -> (r: String)
        ensures
            r@ == render_text(self@.hooks),
    {
        let ghost hv = self@.hooks;
        let mut out = String::new();
        proof {
            reveal_strlit("");
            assert(""@ =~= Seq::<char>::empty());
            assert(hv.skip(0) =~= hv);
            assert(out@ + render_text(hv) =~= render_text(hv));
        }
        let n = self.hooks.len();
        let mut i: usize = 0;
        while i < n
            invariant
                i <= n,
                n == self.hooks@.len(),
                hv == self@.hooks,
                out@ + render_text(hv.skip(i as int)) == render_text(hv),
            decreases n - i,
        {
            proof {
                reveal_strlit("");
                assert(""@ =~= Seq::<char>::empty());
                assert(hv[i as int] == (self.hooks@[i as int].0@, self.hooks@[i as int].1@));
                assert(hv.skip(i as int)[0] == hv[i as int]);
                assert(hv.skip(i as int).drop_first() =~= hv.skip(i as int + 1));
            }
            let path = &self.hooks[i].0;
            let hook = &self.hooks[i].1;
            let ghost before = out@;
            match &hook.method {
                Some(m) => {
                    out.append("-> ");
                    let um = upper_string(m.as_str());
                    out.append(um.as_str());
                    out.append(" ");
                },
                None => {
                    out.append("-> ANY ");
                },
            }
            out.append("/");
            out.append(path.as_str());
            out.append(" : ");
            out.append(hook.command.as_str());
            if let Some(args) = &hook.args {
                let ghost av = crate::config::view_string_seq(args@);
                proof {
                    assert(av.skip(0) =~= av);
                }
                let ghost base = out@;
                let an = args.len();
                let mut j: usize = 0;
                while j < an
                    invariant
                        j <= an,
                        an == args@.len(),
                        av == crate::config::view_string_seq(args@),
                        out@ + args_text(av.skip(j as int)) == base + args_text(av),
                    decreases an - j,
                {
                    proof {
                        assert(av[j as int] == args@[j as int]@);
                        assert(av.skip(j as int)[0] == av[j as int]);
                        assert(av.skip(j as int).drop_first() =~= av.skip(j as int + 1));
                    }
                    out.append(" ");
                    out.append(args[j].as_str());
                    j += 1;
                }
                proof {
                    assert(av.skip(an as int) =~= Seq::<Seq<char>>::empty());
                    assert(out@ =~= base + args_text(av));
                }
            }
            out.append("\n   Auth: ");
            match &hook.auth {
                None => {
                    out.append("NONE");
                },
                Some(names) => {
                    if names.len() == 0 {
                        out.append("NONE");
                    } else {
                        let ghost nv = crate::config::view_string_seq(names@);
                        out.append(names[0].as_str());
                        let ghost base = out@;
                        proof {
                            assert(nv[0] == names@[0]@);
                            assert(nv.skip(1) =~= nv.drop_first());
                        }
                        let nn = names.len();
                        let mut j: usize = 1;
                        while j < nn
                            invariant
                                1 <= j <= nn,
                                nn == names@.len(),
                                nv == crate::config::view_string_seq(names@),
                                out@ + join_rest(nv.skip(j as int)) == base + join_rest(
                                    nv.skip(1),
                                ),
                            decreases nn - j,
                        {
                            proof {
                                assert(nv[j as int] == names@[j as int]@);
                                assert(nv.skip(j as int)[0] == nv[j as int]);
                                assert(nv.skip(j as int).drop_first() =~= nv.skip(j as int + 1));
                            }
                            out.append(", ");
                            out.append(names[j].as_str());
                            j += 1;
                        }
                        proof {
                            assert(nv.skip(nn as int) =~= Seq::<Seq<char>>::empty());
                            assert(out@ =~= base + join_rest(nv.drop_first()));
                        }
                    }
                },
            }
            out.append("\n");
            proof {
                assert(out@ =~= before + hook_text(hv[i as int].0, hv[i as int].1));
            }
            i += 1;
        }
        proof {
            assert(hv.skip(n as int) =~= Seq::<(Seq<char>, HookView)>::empty());
            assert(out@ =~= render_text(hv));
        }
        out
    }
}

} // verus!
