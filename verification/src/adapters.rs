//! Language-server adapters, and the schema path helper they share.

use vstd::prelude::*;

verus! {

/// The adapter for the CSS language server.
#[derive(Debug, Clone, Copy, PartialEq, Eq, Structural)]
pub struct CssLspAdapter {}

impl CssLspAdapter {
    pub fn new() -> (r: Self)
        ensures
            r == (CssLspAdapter {}),
    {
        CssLspAdapter {}
    }
}

/// The adapter for the package-version language server.
#[derive(Debug, Clone, Copy, PartialEq, Eq, Structural)]
pub struct NodeVersionAdapter;

/// The adapter for the Tailwind CSS language server.
#[derive(Debug, Clone, Copy, PartialEq, Eq, Structural)]
pub struct TailwindLspAdapter {}

impl TailwindLspAdapter {
    pub fn new() -> (r: Self)
        ensures
            r == (TailwindLspAdapter {}),
    {
        TailwindLspAdapter {}
    }
}

/// The adapter for the TypeScript language server.
#[derive(Debug, Clone, Copy, PartialEq, Eq, Structural)]
pub struct TypeScriptLspAdapter {}

impl TypeScriptLspAdapter {
    pub fn new() -> (r: Self)
        ensures
            r == (TypeScriptLspAdapter {}),
    {
        TypeScriptLspAdapter {}
    }
}

/// The adapter for the ESLint language server.
#[derive(Debug, Clone, Copy, PartialEq, Eq, Structural)]
pub struct EsLintLspAdapter {}

impl EsLintLspAdapter {
    pub fn new() -> (r: Self)
        ensures
            r == (EsLintLspAdapter {}),
    {
        EsLintLspAdapter {}
    }
}

/// The adapter for the VTSLS TypeScript language server.
#[derive(Debug, Clone, Copy, PartialEq, Eq, Structural)]
pub struct VtslsLspAdapter {}

impl VtslsLspAdapter {
    pub fn new() -> (r: Self)
        ensures
            r == (VtslsLspAdapter {}),
    {
        VtslsLspAdapter {}
    }
}

/// The adapter for the YAML language server.
#[derive(Debug, Clone, Copy, PartialEq, Eq, Structural)]
pub struct YamlLspAdapter {}

impl YamlLspAdapter {
    pub fn new() -> (r: Self)
        ensures
            r == (YamlLspAdapter {}),
    {
        YamlLspAdapter {}
    }
}

/// The last position holding byte `b`, if any.
pub open spec fn rfind_byte(s: Seq<u8>, b: u8) -> Option<int>
    decreases s.len(),
{
    if s.len() == 0 {
        None
    } else if s.last() == b {
        Some(s.len() - 1)
    } else {
        rfind_byte(s.drop_last(), b)
    }
}

/// Path separators kept, backslashes mapped to forward slashes.
pub open spec fn unslash(x: u8) -> u8 {
    if x == 92 {
        47u8
    } else {
        x
    }
}

/// Every backslash of the sequence mapped to a forward slash.
pub open spec fn map_unslash(s: Seq<u8>) -> Seq<u8> {
    s.map_values(|x: u8| unslash(x))
}

/// The final two components of a `/`-separated path — the path stripped of
/// its parent's parent — with backslashes mapped to forward slashes.
pub open spec fn spec_schema_file_match(p: Seq<u8>) -> Seq<u8>
    recommends
        rfind_byte(p, 47) is Some,
        rfind_byte(p.take(rfind_byte(p, 47)->0), 47) is Some,
{
    let j = rfind_byte(p, 47)->0;
    let i = rfind_byte(p.take(j), 47)->0;
    map_unslash(p.skip(i + 1))
}

/// Finds the last occurrence of `b` in `s[..upto]`.
fn scan_last_byte(s: &Vec<u8>, b: u8, upto: usize) -> (r: Option<usize>)
    requires
        upto <= s@.len(),
    ensures
        match rfind_byte(s@.take(upto as int), b) {
            Some(p) => r is Some && r->0 == p && 0 <= p < upto && s@[p] == b,
            None => r is None,
        },
{
    let mut i: usize = upto;
    while i > 0
        invariant
            0 <= i <= upto <= s@.len(),
            rfind_byte(s@.take(upto as int), b) == rfind_byte(s@.take(i as int), b),
        decreases i,
    {
        if s[i - 1] == b {
            proof {
                assert(s@.take(i as int).last() == s@[i - 1]);
            }
            return Some(i - 1);
        }
        proof {
            assert(s@.take(i as int).drop_last() =~= s@.take(i - 1));
        }
        i = i - 1;
    }
    proof {
        assert(s@.take(0) =~= Seq::<u8>::empty());
    }
    None
}

/// The file-match pattern registered for a bundled schema: the schema file's
/// name under its parent directory, as the path's final two components.
/// The path must have at least two separators (a file, its directory, and
/// something above them).
pub fn schema_file_match(path: &Vec<u8>) -> (r: Vec<u8>)
    requires
        rfind_byte(path@, 47) is Some,
        rfind_byte(path@.take(rfind_byte(path@, 47)->0), 47) is Some,
    ensures
        r@ == spec_schema_file_match(path@),
{
    proof {
        assert(path@.take(path@.len() as int) =~= path@);
    }
    let j = match scan_last_byte(path, 47, path.len()) {
        Some(j) => j,
        None => {
            proof {
                assert(false);
            }
            0
        },
    };
    let i = match scan_last_byte(path, 47, j) {
        Some(i) => i,
        None => {
            proof {
                assert(false);
            }
            0
        },
    };
    let mut r: Vec<u8> = Vec::new();
    let mut k: usize = i + 1;
    proof {
        assert(r@ =~= map_unslash(path@.subrange(i + 1, i + 1)));
    }
    while k < path.len()
        invariant
            i + 1 <= k <= path@.len(),
            r@ == map_unslash(path@.subrange(i + 1, k as int)),
        decreases path@.len() - k,
    {
        let b = path[k];
        if b == 92 {
            r.push(47);
        } else {
            r.push(b);
        }
        proof {
            assert(map_unslash(path@.subrange(i + 1, k + 1)) =~= map_unslash(
                path@.subrange(i + 1, k as int),
            ).push(unslash(path@[k as int])));
        }
        k = k + 1;
    }
    proof {
        assert(path@.subrange(i + 1, path@.len() as int) =~= path@.skip(i + 1));
    }
    r
}

} // verus!
