//! The build option model: feature toggles, interface choice and
//! optional target, with their translation to build-tool argument
//! tokens.

use vstd::prelude::*;
use vstd::string::*;

use crate::target::Target;

verus! {

/// Integer calling-convention choice of the built library:
/// 32-bit-address-width-compatible (`LP64`, the default) or
/// 64-bit-wide-integer (`ILP64`).
#[derive(Debug, Clone, Copy)]
pub enum Interface {
    LP64,
    ILP64,
}

impl Default for Interface {
    /// The external build's own default interface is `LP64`.
    fn default() -> (r: Self)
        ensures
            r is LP64,
    {
        Interface::LP64
    }
}

/// Configuration of one external build: independent boolean feature
/// flags, an interface choice, and an optional target.
///
/// All flags default to false/absent, which yields the external
/// build's own defaults when unset.
#[derive(Debug, Clone)]
pub struct BuildOption {
    pub no_static: bool,
    pub no_shared: bool,
    pub no_cblas: bool,
    pub no_lapack: bool,
    pub no_lapacke: bool,
    pub no_fortran: bool,
    pub use_thread: bool,
    pub use_openmp: bool,
    pub dynamic_arch: bool,
    pub interface: Interface,
    pub target: Option<Target>,
}

impl Default for BuildOption {
    /// All flags off, `LP64` interface, no explicit target.
    fn default() -> (r: Self)
        ensures
            !r.no_static,
            !r.no_shared,
            !r.no_cblas,
            !r.no_lapack,
            !r.no_lapacke,
            !r.no_fortran,
            !r.use_thread,
            !r.use_openmp,
            !r.dynamic_arch,
            r.interface is LP64,
            r.target is None,
    {
        BuildOption {
            no_static: false,
            no_shared: false,
            no_cblas: false,
            no_lapack: false,
            no_lapacke: false,
            no_fortran: false,
            use_thread: false,
            use_openmp: false,
            dynamic_arch: false,
            interface: Interface::LP64,
            target: None,
        }
    }
}

/// The character sequences of a sequence of strings.
pub open spec fn arg_views(s: Seq<String>) -> Seq<Seq<char>> {
    s.map_values(|x: String| x@)
}

/// One token when the flag is active, nothing when it is not.
pub open spec fn cond_token(active: bool, token: Seq<char>) -> Seq<Seq<char>> {
    if active {
        seq![token]
    } else {
        Seq::empty()
    }
}

/// The token added for an explicitly chosen target, nothing when the
/// external tool is left to auto-detect the host CPU.
pub open spec fn target_tokens(target: Option<Target>) -> Seq<Seq<char>> {
    match target {
        Some(t) => seq!["TARGET="@ + t.spec_token()],
        None => Seq::empty(),
    }
}

impl BuildOption {
    /// The argument tokens this configuration translates to, in their
    /// fixed, stable order: one `KEY=1` token per active flag
    /// (static/shared/cblas/lapack/lapacke/fortran/thread/openmp),
    /// then the interface token only under `ILP64`, then the target
    /// token only when a target was chosen.
    pub open spec fn spec_args(self) -> Seq<Seq<char>> {
        cond_token(self.no_static, "NO_STATIC=1"@) + cond_token(self.no_shared, "NO_SHARED=1"@)
            + cond_token(self.no_cblas, "NO_CBLAS=1"@) + cond_token(
            self.no_lapack,
            "NO_LAPACK=1"@,
        ) + cond_token(self.no_lapacke, "NO_LAPACKE=1"@) + cond_token(
            self.no_fortran,
            "NOFORTRAN=1"@,
        ) + cond_token(self.use_thread, "USE_THREAD=1"@) + cond_token(
            self.use_openmp,
            "USE_OPENMP=1"@,
        ) + cond_token(self.interface is ILP64, "INTERFACE64=1"@) + target_tokens(self.target)
    }

    /// Deterministically emits the build-tool arguments of this
    /// configuration, exactly as [`BuildOption::spec_args`] lists
    /// them. Pure transform; no side effects.
    pub fn make_args(&self) -> (r: Vec<String>)
        ensures
            arg_views(r@) == self.spec_args(),
    {
        let mut args: Vec<String> = Vec::new();
        push_flag(&mut args, self.no_static, "NO_STATIC=1");
        push_flag(&mut args, self.no_shared, "NO_SHARED=1");
        push_flag(&mut args, self.no_cblas, "NO_CBLAS=1");
        push_flag(&mut args, self.no_lapack, "NO_LAPACK=1");
        push_flag(&mut args, self.no_lapacke, "NO_LAPACKE=1");
        push_flag(&mut args, self.no_fortran, "NOFORTRAN=1");
        push_flag(&mut args, self.use_thread, "USE_THREAD=1");
        push_flag(&mut args, self.use_openmp, "USE_OPENMP=1");
        push_flag(&mut args, matches!(self.interface, Interface::ILP64), "INTERFACE64=1");
        match &self.target {
            Some(target) => {
                let mut token = String::from_str("TARGET=");
                token.append(target.token());
                args.push(token);
            },
            None => {},
        }
        proof {
            assert(arg_views(args@) =~= self.spec_args());
        }
        args
    }
}

/// How many elements of `s` equal `token`.
pub open spec fn count_token(s: Seq<Seq<char>>, token: Seq<char>) -> nat
    decreases s.len(),
{
    if s.len() == 0 {
        0
    } else {
        count_token(s.drop_last(), token) + (if s.last() == token {
            1nat
        } else {
            0nat
        })
    }
}

/// Counting a token distributes over concatenation.
proof fn lemma_count_concat(a: Seq<Seq<char>>, b: Seq<Seq<char>>, token: Seq<char>)
    ensures
        count_token(a + b, token) == count_token(a, token) + count_token(b, token),
    decreases b.len(),
{
    if b.len() == 0 {
        assert(a + b =~= a);
    } else {
        assert((a + b).drop_last() =~= a + b.drop_last());
        lemma_count_concat(a, b.drop_last(), token);
    }
}

/// A one-token sequence holds `token` once or not at all.
proof fn lemma_count_single(t: Seq<char>, token: Seq<char>)
    ensures
        count_token(seq![t], token) == (if t == token {
            1nat
        } else {
            0nat
        }),
{
    assert(seq![t].drop_last().len() == 0);
    assert(count_token(seq![t].drop_last(), token) == 0);
    assert(seq![t].last() == t);
}

/// A conditional token counts once exactly when it is active and is
/// the token asked about.
proof fn lemma_count_cond(active: bool, t: Seq<char>, token: Seq<char>)
    ensures
        count_token(cond_token(active, t), token) == (if active && t == token {
            1nat
        } else {
            0nat
        }),
{
    if active {
        lemma_count_single(t, token);
    }
}

/// How often any given token occurs among the arguments of a
/// configuration: once for each active flag whose token it is, once
/// for the interface token under `ILP64`, once for the chosen
/// target's token, and never otherwise.
#[verifier::rlimit(100)]
pub proof fn lemma_token_counts(o: BuildOption, token: Seq<char>)
    ensures
        count_token(o.spec_args(), token) == (if o.no_static && token == "NO_STATIC=1"@ {
            1nat
        } else {
            0nat
        }) + (if o.no_shared && token == "NO_SHARED=1"@ {
            1nat
        } else {
            0nat
        }) + (if o.no_cblas && token == "NO_CBLAS=1"@ {
            1nat
        } else {
            0nat
        }) + (if o.no_lapack && token == "NO_LAPACK=1"@ {
            1nat
        } else {
            0nat
        }) + (if o.no_lapacke && token == "NO_LAPACKE=1"@ {
            1nat
        } else {
            0nat
        }) + (if o.no_fortran && token == "NOFORTRAN=1"@ {
            1nat
        } else {
            0nat
        }) + (if o.use_thread && token == "USE_THREAD=1"@ {
            1nat
        } else {
            0nat
        }) + (if o.use_openmp && token == "USE_OPENMP=1"@ {
            1nat
        } else {
            0nat
        }) + (if o.interface is ILP64 && token == "INTERFACE64=1"@ {
            1nat
        } else {
            0nat
        }) + (match o.target {
            Some(t) => if token == "TARGET="@ + t.spec_token() {
                1nat
            } else {
                0nat
            },
            None => 0nat,
        }),
{
    let p1 = cond_token(o.no_static, "NO_STATIC=1"@);
    let p2 = cond_token(o.no_shared, "NO_SHARED=1"@);
    let p3 = cond_token(o.no_cblas, "NO_CBLAS=1"@);
    let p4 = cond_token(o.no_lapack, "NO_LAPACK=1"@);
    let p5 = cond_token(o.no_lapacke, "NO_LAPACKE=1"@);
    let p6 = cond_token(o.no_fortran, "NOFORTRAN=1"@);
    let p7 = cond_token(o.use_thread, "USE_THREAD=1"@);
    let p8 = cond_token(o.use_openmp, "USE_OPENMP=1"@);
    let p9 = cond_token(o.interface is ILP64, "INTERFACE64=1"@);
    let p10 = target_tokens(o.target);
    lemma_count_concat(p1, p2, token);
    lemma_count_concat(p1 + p2, p3, token);
    lemma_count_concat(p1 + p2 + p3, p4, token);
    lemma_count_concat(p1 + p2 + p3 + p4, p5, token);
    lemma_count_concat(p1 + p2 + p3 + p4 + p5, p6, token);
    lemma_count_concat(p1 + p2 + p3 + p4 + p5 + p6, p7, token);
    lemma_count_concat(p1 + p2 + p3 + p4 + p5 + p6 + p7, p8, token);
    lemma_count_concat(p1 + p2 + p3 + p4 + p5 + p6 + p7 + p8, p9, token);
    lemma_count_concat(p1 + p2 + p3 + p4 + p5 + p6 + p7 + p8 + p9, p10, token);
    lemma_count_cond(o.no_static, "NO_STATIC=1"@, token);
    lemma_count_cond(o.no_shared, "NO_SHARED=1"@, token);
    lemma_count_cond(o.no_cblas, "NO_CBLAS=1"@, token);
    lemma_count_cond(o.no_lapack, "NO_LAPACK=1"@, token);
    lemma_count_cond(o.no_lapacke, "NO_LAPACKE=1"@, token);
    lemma_count_cond(o.no_fortran, "NOFORTRAN=1"@, token);
    lemma_count_cond(o.use_thread, "USE_THREAD=1"@, token);
    lemma_count_cond(o.use_openmp, "USE_OPENMP=1"@, token);
    lemma_count_cond(o.interface is ILP64, "INTERFACE64=1"@, token);
    match o.target {
        Some(t) => lemma_count_single("TARGET="@ + t.spec_token(), token),
        None => {},
    }
}

/// The nine fixed tokens are pairwise distinct, and none of them
/// begins with `T`, so no target token equals any of them.
#[verifier::rlimit(100)]
proof fn lemma_tokens_distinct()
    ensures
        "NO_STATIC=1"@ != "NO_SHARED=1"@,
        "NO_STATIC=1"@ != "NO_CBLAS=1"@,
        "NO_STATIC=1"@ != "NO_LAPACK=1"@,
        "NO_STATIC=1"@ != "NO_LAPACKE=1"@,
        "NO_STATIC=1"@ != "NOFORTRAN=1"@,
        "NO_STATIC=1"@ != "USE_THREAD=1"@,
        "NO_STATIC=1"@ != "USE_OPENMP=1"@,
        "NO_STATIC=1"@ != "INTERFACE64=1"@,
        "NO_SHARED=1"@ != "NO_CBLAS=1"@,
        "NO_SHARED=1"@ != "NO_LAPACK=1"@,
        "NO_SHARED=1"@ != "NO_LAPACKE=1"@,
        "NO_SHARED=1"@ != "NOFORTRAN=1"@,
        "NO_SHARED=1"@ != "USE_THREAD=1"@,
        "NO_SHARED=1"@ != "USE_OPENMP=1"@,
        "NO_SHARED=1"@ != "INTERFACE64=1"@,
        "NO_CBLAS=1"@ != "NO_LAPACK=1"@,
        "NO_CBLAS=1"@ != "NO_LAPACKE=1"@,
        "NO_CBLAS=1"@ != "NOFORTRAN=1"@,
        "NO_CBLAS=1"@ != "USE_THREAD=1"@,
        "NO_CBLAS=1"@ != "USE_OPENMP=1"@,
        "NO_CBLAS=1"@ != "INTERFACE64=1"@,
        "NO_LAPACK=1"@ != "NO_LAPACKE=1"@,
        "NO_LAPACK=1"@ != "NOFORTRAN=1"@,
        "NO_LAPACK=1"@ != "USE_THREAD=1"@,
        "NO_LAPACK=1"@ != "USE_OPENMP=1"@,
        "NO_LAPACK=1"@ != "INTERFACE64=1"@,
        "NO_LAPACKE=1"@ != "NOFORTRAN=1"@,
        "NO_LAPACKE=1"@ != "USE_THREAD=1"@,
        "NO_LAPACKE=1"@ != "USE_OPENMP=1"@,
        "NO_LAPACKE=1"@ != "INTERFACE64=1"@,
        "NOFORTRAN=1"@ != "USE_THREAD=1"@,
        "NOFORTRAN=1"@ != "USE_OPENMP=1"@,
        "NOFORTRAN=1"@ != "INTERFACE64=1"@,
        "USE_THREAD=1"@ != "USE_OPENMP=1"@,
        "USE_THREAD=1"@ != "INTERFACE64=1"@,
        "USE_OPENMP=1"@ != "INTERFACE64=1"@,
        forall|x: Seq<char>| ("TARGET="@ + x) != "NO_STATIC=1"@,
        forall|x: Seq<char>| ("TARGET="@ + x) != "NO_SHARED=1"@,
        forall|x: Seq<char>| ("TARGET="@ + x) != "NO_CBLAS=1"@,
        forall|x: Seq<char>| ("TARGET="@ + x) != "NO_LAPACK=1"@,
        forall|x: Seq<char>| ("TARGET="@ + x) != "NO_LAPACKE=1"@,
        forall|x: Seq<char>| ("TARGET="@ + x) != "NOFORTRAN=1"@,
        forall|x: Seq<char>| ("TARGET="@ + x) != "USE_THREAD=1"@,
        forall|x: Seq<char>| ("TARGET="@ + x) != "USE_OPENMP=1"@,
        forall|x: Seq<char>| ("TARGET="@ + x) != "INTERFACE64=1"@,
{
    reveal_strlit("NO_STATIC=1");
    reveal_strlit("NO_SHARED=1");
    reveal_strlit("NO_CBLAS=1");
    reveal_strlit("NO_LAPACK=1");
    reveal_strlit("NO_LAPACKE=1");
    reveal_strlit("NOFORTRAN=1");
    reveal_strlit("USE_THREAD=1");
    reveal_strlit("USE_OPENMP=1");
    reveal_strlit("INTERFACE64=1");
    reveal_strlit("TARGET=");
    assert("NO_STATIC=1"@[0] == 'N');
    assert("NO_STATIC=1"@[2] == '_');
    assert("NO_STATIC=1"@[3] == 'S');
    assert("NO_STATIC=1"@[4] == 'T');
    assert("NO_STATIC=1"@[9] == '=');
    assert("NO_SHARED=1"@[0] == 'N');
    assert("NO_SHARED=1"@[2] == '_');
    assert("NO_SHARED=1"@[3] == 'S');
    assert("NO_SHARED=1"@[4] == 'H');
    assert("NO_SHARED=1"@[9] == '=');
    assert("NO_CBLAS=1"@[0] == 'N');
    assert("NO_CBLAS=1"@[2] == '_');
    assert("NO_CBLAS=1"@[3] == 'C');
    assert("NO_CBLAS=1"@[4] == 'B');
    assert("NO_CBLAS=1"@[9] == '1');
    assert("NO_LAPACK=1"@[0] == 'N');
    assert("NO_LAPACK=1"@[2] == '_');
    assert("NO_LAPACK=1"@[3] == 'L');
    assert("NO_LAPACK=1"@[4] == 'A');
    assert("NO_LAPACK=1"@[9] == '=');
    assert("NO_LAPACKE=1"@[0] == 'N');
    assert("NO_LAPACKE=1"@[2] == '_');
    assert("NO_LAPACKE=1"@[3] == 'L');
    assert("NO_LAPACKE=1"@[4] == 'A');
    assert("NO_LAPACKE=1"@[9] == 'E');
    assert("NOFORTRAN=1"@[0] == 'N');
    assert("NOFORTRAN=1"@[2] == 'F');
    assert("NOFORTRAN=1"@[3] == 'O');
    assert("NOFORTRAN=1"@[4] == 'R');
    assert("NOFORTRAN=1"@[9] == '=');
    assert("USE_THREAD=1"@[0] == 'U');
    assert("USE_THREAD=1"@[2] == 'E');
    assert("USE_THREAD=1"@[3] == '_');
    assert("USE_THREAD=1"@[4] == 'T');
    assert("USE_THREAD=1"@[9] == 'D');
    assert("USE_OPENMP=1"@[0] == 'U');
    assert("USE_OPENMP=1"@[2] == 'E');
    assert("USE_OPENMP=1"@[3] == '_');
    assert("USE_OPENMP=1"@[4] == 'O');
    assert("USE_OPENMP=1"@[9] == 'P');
    assert("INTERFACE64=1"@[0] == 'I');
    assert("INTERFACE64=1"@[2] == 'T');
    assert("INTERFACE64=1"@[3] == 'E');
    assert("INTERFACE64=1"@[4] == 'R');
    assert("INTERFACE64=1"@[9] == '6');
    assert("NO_STATIC=1"@ != "NO_SHARED=1"@);
    assert("NO_STATIC=1"@ != "NO_CBLAS=1"@);
    assert("NO_STATIC=1"@ != "NO_LAPACK=1"@);
    assert("NO_STATIC=1"@ != "NO_LAPACKE=1"@);
    assert("NO_STATIC=1"@ != "NOFORTRAN=1"@);
    assert("NO_STATIC=1"@ != "USE_THREAD=1"@);
    assert("NO_STATIC=1"@ != "USE_OPENMP=1"@);
    assert("NO_STATIC=1"@ != "INTERFACE64=1"@);
    assert("NO_SHARED=1"@ != "NO_CBLAS=1"@);
    assert("NO_SHARED=1"@ != "NO_LAPACK=1"@);
    assert("NO_SHARED=1"@ != "NO_LAPACKE=1"@);
    assert("NO_SHARED=1"@ != "NOFORTRAN=1"@);
    assert("NO_SHARED=1"@ != "USE_THREAD=1"@);
    assert("NO_SHARED=1"@ != "USE_OPENMP=1"@);
    assert("NO_SHARED=1"@ != "INTERFACE64=1"@);
    assert("NO_CBLAS=1"@ != "NO_LAPACK=1"@);
    assert("NO_CBLAS=1"@ != "NO_LAPACKE=1"@);
    assert("NO_CBLAS=1"@ != "NOFORTRAN=1"@);
    assert("NO_CBLAS=1"@ != "USE_THREAD=1"@);
    assert("NO_CBLAS=1"@ != "USE_OPENMP=1"@);
    assert("NO_CBLAS=1"@ != "INTERFACE64=1"@);
    assert("NO_LAPACK=1"@ != "NO_LAPACKE=1"@);
    assert("NO_LAPACK=1"@ != "NOFORTRAN=1"@);
    assert("NO_LAPACK=1"@ != "USE_THREAD=1"@);
    assert("NO_LAPACK=1"@ != "USE_OPENMP=1"@);
    assert("NO_LAPACK=1"@ != "INTERFACE64=1"@);
    assert("NO_LAPACKE=1"@ != "NOFORTRAN=1"@);
    assert("NO_LAPACKE=1"@ != "USE_THREAD=1"@);
    assert("NO_LAPACKE=1"@ != "USE_OPENMP=1"@);
    assert("NO_LAPACKE=1"@ != "INTERFACE64=1"@);
    assert("NOFORTRAN=1"@ != "USE_THREAD=1"@);
    assert("NOFORTRAN=1"@ != "USE_OPENMP=1"@);
    assert("NOFORTRAN=1"@ != "INTERFACE64=1"@);
    assert("USE_THREAD=1"@ != "USE_OPENMP=1"@);
    assert("USE_THREAD=1"@ != "INTERFACE64=1"@);
    assert("USE_OPENMP=1"@ != "INTERFACE64=1"@);
    assert("TARGET="@[0] == 'T');
    assert forall|x: Seq<char>| ("TARGET="@ + x) != "NO_STATIC=1"@ by {
        assert(("TARGET="@ + x)[0] == 'T');
    }
    assert forall|x: Seq<char>| ("TARGET="@ + x) != "NO_SHARED=1"@ by {
        assert(("TARGET="@ + x)[0] == 'T');
    }
    assert forall|x: Seq<char>| ("TARGET="@ + x) != "NO_CBLAS=1"@ by {
        assert(("TARGET="@ + x)[0] == 'T');
    }
    assert forall|x: Seq<char>| ("TARGET="@ + x) != "NO_LAPACK=1"@ by {
        assert(("TARGET="@ + x)[0] == 'T');
    }
    assert forall|x: Seq<char>| ("TARGET="@ + x) != "NO_LAPACKE=1"@ by {
        assert(("TARGET="@ + x)[0] == 'T');
    }
    assert forall|x: Seq<char>| ("TARGET="@ + x) != "NOFORTRAN=1"@ by {
        assert(("TARGET="@ + x)[0] == 'T');
    }
    assert forall|x: Seq<char>| ("TARGET="@ + x) != "USE_THREAD=1"@ by {
        assert(("TARGET="@ + x)[0] == 'T');
    }
    assert forall|x: Seq<char>| ("TARGET="@ + x) != "USE_OPENMP=1"@ by {
        assert(("TARGET="@ + x)[0] == 'T');
    }
    assert forall|x: Seq<char>| ("TARGET="@ + x) != "INTERFACE64=1"@ by {
        assert(("TARGET="@ + x)[0] == 'T');
    }
}

/// Law: a configuration with no flags set, the default `LP64`
/// interface and no explicit target translates to no arguments at
/// all, leaving every choice to the external build tool.
pub proof fn lemma_no_options_no_args(o: BuildOption)
    requires
        !o.no_static,
        !o.no_shared,
        !o.no_cblas,
        !o.no_lapack,
        !o.no_lapacke,
        !o.no_fortran,
        !o.use_thread,
        !o.use_openmp,
        !o.dynamic_arch,
        o.interface is LP64,
        o.target is None,
    ensures
        o.spec_args() == Seq::<Seq<char>>::empty(),
{
    assert(o.spec_args() =~= Seq::<Seq<char>>::empty());
}

/// Law: each active boolean flag maps to exactly one occurrence of
/// its `KEY=1` token among the arguments, and an inactive flag to
/// none. Together with the exact postcondition of
/// [`BuildOption::make_args`], which pins the whole ordered sequence,
/// the tokens and their order are identical across repeated calls on
/// the same configuration.
#[verifier::rlimit(100)]
pub proof fn lemma_flag_token_counts(o: BuildOption)
    ensures
        count_token(o.spec_args(), "NO_STATIC=1"@) == (if o.no_static {
            1nat
        } else {
            0nat
        }),
        count_token(o.spec_args(), "NO_SHARED=1"@) == (if o.no_shared {
            1nat
        } else {
            0nat
        }),
        count_token(o.spec_args(), "NO_CBLAS=1"@) == (if o.no_cblas {
            1nat
        } else {
            0nat
        }),
        count_token(o.spec_args(), "NO_LAPACK=1"@) == (if o.no_lapack {
            1nat
        } else {
            0nat
        }),
        count_token(o.spec_args(), "NO_LAPACKE=1"@) == (if o.no_lapacke {
            1nat
        } else {
            0nat
        }),
        count_token(o.spec_args(), "NOFORTRAN=1"@) == (if o.no_fortran {
            1nat
        } else {
            0nat
        }),
        count_token(o.spec_args(), "USE_THREAD=1"@) == (if o.use_thread {
            1nat
        } else {
            0nat
        }),
        count_token(o.spec_args(), "USE_OPENMP=1"@) == (if o.use_openmp {
            1nat
        } else {
            0nat
        }),
{
    lemma_tokens_distinct();
    lemma_token_counts(o, "NO_STATIC=1"@);
    lemma_token_counts(o, "NO_SHARED=1"@);
    lemma_token_counts(o, "NO_CBLAS=1"@);
    lemma_token_counts(o, "NO_LAPACK=1"@);
    lemma_token_counts(o, "NO_LAPACKE=1"@);
    lemma_token_counts(o, "NOFORTRAN=1"@);
    lemma_token_counts(o, "USE_THREAD=1"@);
    lemma_token_counts(o, "USE_OPENMP=1"@);
}

/// Law: choosing `ILP64` adds exactly one `INTERFACE64=1` token;
/// `LP64` adds none, matching the external tool's own default.
pub proof fn lemma_interface_token_count(o: BuildOption)
    ensures
        count_token(o.spec_args(), "INTERFACE64=1"@) == (if o.interface is ILP64 {
            1nat
        } else {
            0nat
        }),
{
    lemma_tokens_distinct();
    lemma_token_counts(o, "INTERFACE64=1"@);
}

/// Law: choosing a target adds exactly one `TARGET=<name>` token,
/// built from the target's canonical string; omitting the target
/// adds no `TARGET=<name>` token for any target at all.
pub proof fn lemma_target_token_count(o: BuildOption)
    ensures
        (o.target matches Some(t) ==> count_token(o.spec_args(), "TARGET="@ + t.spec_token())
            == 1),
        (o.target is None ==> forall|t: Target|
            count_token(o.spec_args(), "TARGET="@ + t.spec_token()) == 0),
{
    lemma_tokens_distinct();
    match o.target {
        Some(t) => {
            lemma_token_counts(o, "TARGET="@ + t.spec_token());
        },
        None => {
            assert forall|t: Target| count_token(o.spec_args(), "TARGET="@ + t.spec_token())
                == 0 by {
                lemma_token_counts(o, "TARGET="@ + t.spec_token());
            }
        },
    }
}

/// Appends the token when the flag is active, so that the emitted
/// tokens grow exactly by `cond_token(active, token)`.
fn push_flag(args: &mut Vec<String>, active: bool, token: &'static str)
    ensures
        arg_views(final(args)@) == arg_views(old(args)@) + cond_token(active, token@),
{
    if active {
        args.push(String::from_str(token));
    }
    proof {
        assert(arg_views(args@) =~= arg_views(old(args)@) + cond_token(active, token@));
    }
}

} // verus!


