use vstd::prelude::*;

verus! {

/// The directories that path templates may refer to.
pub struct PathEnv {
    /// The user's home directory (`${HOME}`, `$HOME`, `~`).
    pub home: String,
    /// The per-platform roaming configuration directory (`${APPDATA}`, `$APPDATA`).
    pub roaming: String,
    /// The per-platform local configuration directory (`${LOCALAPPDATA}`, `$LOCALAPPDATA`).
    pub local: String,
    /// The path separator used to join a relative path to a base.
    pub separator: String,
}

/// Number of recognised tokens.
pub const TOKEN_COUNT: usize = 7;

/// The recognised tokens, tried in this order at each position.
pub open spec fn token(k: int) -> Seq<char> {
    if k == 0 {
        seq!['$', '{', 'H', 'O', 'M', 'E', '}']
    } else if k == 1 {
        seq!['$', 'H', 'O', 'M', 'E']
    } else if k == 2 {
        seq!['~']
    } else if k == 3 {
        seq!['$', '{', 'A', 'P', 'P', 'D', 'A', 'T', 'A', '}']
    } else if k == 4 {
        seq!['$', 'A', 'P', 'P', 'D', 'A', 'T', 'A']
    } else if k == 5 {
        seq!['$', '{', 'L', 'O', 'C', 'A', 'L', 'A', 'P', 'P', 'D', 'A', 'T', 'A', '}']
    } else {
        seq!['$', 'L', 'O', 'C', 'A', 'L', 'A', 'P', 'P', 'D', 'A', 'T', 'A']
    }
}

/// What token `k` stands for.
pub open spec fn replacement(k: int, home: Seq<char>, roaming: Seq<char>, local: Seq<char>) -> Seq<
    char,
> {
    if k <= 2 {
        home
    } else if k <= 4 {
        roaming
    } else {
        local
    }
}

/// Whether `t` starts with `p`.
pub open spec fn starts_with(t: Seq<char>, p: Seq<char>) -> bool {
    p.len() <= t.len() && t.subrange(0, p.len() as int) == p
}

/// The first token, from `k` on, that `t` starts with, or `TOKEN_COUNT` if none.
pub open spec fn token_from(t: Seq<char>, k: int) -> int
    decreases TOKEN_COUNT - k,
{
    if k >= TOKEN_COUNT {
        TOKEN_COUNT as int
    } else if starts_with(t, token(k)) {
        k
    } else {
        token_from(t, k + 1)
    }
}

/// A template with every recognised token replaced, scanning left to right;
/// a replacement is never expanded again.
pub open spec fn expanded(t: Seq<char>, home: Seq<char>, roaming: Seq<char>, local: Seq<char>) -> Seq<
    char,
>
    decreases t.len(),
{
    if t.len() == 0 {
        Seq::empty()
    } else {
        let k = token_from(t, 0);
        if k < TOKEN_COUNT && 0 < token(k).len() <= t.len() {
            replacement(k, home, roaming, local) + expanded(
                t.skip(token(k).len() as int),
                home,
                roaming,
                local,
            )
        } else {
            seq![t[0]] + expanded(t.skip(1), home, roaming, local)
        }
    }
}

/// `rel` joined to `base`: `rel` alone where it starts with the separator,
/// else `base`, the separator where `base` is not empty and does not end with
/// it, and `rel`. Only `sep` counts as a separator (the Unix rule); where a
/// platform also accepts another one, a base ending in that one still gets
/// `sep` appended, and a `rel` starting with it is not taken as absolute.
pub open spec fn joined(base: Seq<char>, rel: Seq<char>, sep: Seq<char>) -> Seq<char> {
    if sep.len() > 0 && starts_with(rel, sep) {
        rel
    } else if base.len() == 0 || (sep.len() <= base.len() && base.subrange(
        base.len() - sep.len(),
        base.len() as int,
    ) == sep) {
        base + rel
    } else {
        base + sep + rel
    }
}

fn token_str(k: usize) -> (r: &'static str)
    requires
        k < TOKEN_COUNT,
    ensures
        r@ == token(k as int),
{
    proof {
        reveal_strlit("${HOME}");
        reveal_strlit("$HOME");
        reveal_strlit("~");
        reveal_strlit("${APPDATA}");
        reveal_strlit("$APPDATA");
        reveal_strlit("${LOCALAPPDATA}");
        reveal_strlit("$LOCALAPPDATA");
    }
    let r = if k == 0 {
        "${HOME}"
    } else if k == 1 {
        "$HOME"
    } else if k == 2 {
        "~"
    } else if k == 3 {
        "${APPDATA}"
    } else if k == 4 {
        "$APPDATA"
    } else if k == 5 {
        "${LOCALAPPDATA}"
    } else {
        "$LOCALAPPDATA"
    };
    assert(r@ =~= token(k as int));
    r
}

/// Whether `t` holds `p` at position `i`.
fn occurs_at(t: &str, n: usize, i: usize, p: &str) -> (r: bool)
    requires
        n == t@.len(),
        i <= n,
    ensures
        r == starts_with(t@.skip(i as int), p@),
{
    let m = p.unicode_len();
    if m > n - i {
        return false;
    }
    let mut j: usize = 0;
    while j < m
        invariant
            m == p@.len(),
            n == t@.len(),
            i + m <= n,
            j <= m,
            forall|q: int| 0 <= q < j ==> t@[i + q] == p@[q],
        decreases m - j,
    {
        if t.get_char(i + j) != p.get_char(j) {
            assert(t@.skip(i as int).subrange(0, m as int)[j as int] != p@[j as int]);
            return false;
        }
        j = j + 1;
    }
    assert(t@.skip(i as int).subrange(0, m as int) =~= p@);
    true
}

/// Expands the directory tokens of a path template.
pub fn expand_path(template: &str, env: &PathEnv) -> (r: String)
    ensures
        r@ == expanded(template@, env.home@, env.roaming@, env.local@),
{
    let ghost home = env.home@;
    let ghost roaming = env.roaming@;
    let ghost local = env.local@;
    let ghost t = template@;
    let n = template.unicode_len();
    let mut out = String::new();
    let mut i: usize = 0;
    assert(t.skip(0) =~= t);
    while i < n
        invariant
            n == t.len(),
            t == template@,
            home == env.home@,
            roaming == env.roaming@,
            local == env.local@,
            i <= n,
            expanded(t, home, roaming, local) == out@ + expanded(t.skip(i as int), home, roaming, local),
        decreases n - i,
    {
        let ghost rest = t.skip(i as int);
        let ghost before = out@;
        let mut k: usize = 0;
        let mut found = false;
        while k < TOKEN_COUNT && !found
            invariant
                n == t.len(),
                t == template@,
                i < n,
                rest == t.skip(i as int),
                k <= TOKEN_COUNT,
                found ==> k < TOKEN_COUNT && starts_with(rest, token(k as int)),
                token_from(rest, 0) == (if found { k as int } else { token_from(rest, k as int) }),
            decreases TOKEN_COUNT - k + (if found { 0int } else { 1 }),
        {
            if occurs_at(template, n, i, token_str(k)) {
                found = true;
            } else {
                k = k + 1;
            }
        }
        if found {
            let tok = token_str(k);
            let len = tok.unicode_len();
            let rep = if k <= 2 {
                env.home.as_str()
            } else if k <= 4 {
                env.roaming.as_str()
            } else {
                env.local.as_str()
            };
            proof {
                assert(rest.skip(len as int) =~= t.skip(i + len));
                assert(rep@ == replacement(k as int, home, roaming, local));
                assert(expanded(rest, home, roaming, local) == rep@ + expanded(
                    t.skip(i + len),
                    home,
                    roaming,
                    local,
                ));
            }
            out.append(rep);
            assert(out@ =~= before + rep@);
            i = i + len;
        } else {
            let c = template.substring_char(i, i + 1);
            proof {
                assert(rest.skip(1) =~= t.skip(i + 1));
                assert(c@ =~= seq![rest[0]]);
                assert(token_from(rest, 0) == TOKEN_COUNT);
                assert(expanded(rest, home, roaming, local) == c@ + expanded(
                    t.skip(i + 1),
                    home,
                    roaming,
                    local,
                ));
            }
            out.append(c);
            assert(out@ =~= before + c@);
            i = i + 1;
        }
    }
    assert(t.skip(n as int) =~= Seq::<char>::empty());
    out
}

/// Joins a relative path to a base directory.
pub fn join_path(base: &str, rel: &str, sep: &str) -> (r: String)
    ensures
        r@ == joined(base@, rel@, sep@),
{
    let ns = sep.unicode_len();
    let nr = rel.unicode_len();
    let nb = base.unicode_len();
    assert(rel@.skip(0) =~= rel@);
    if ns > 0 && occurs_at(rel, nr, 0, sep) {
        return String::from_str(rel);
    }
    let ends = if ns <= nb {
        let e = occurs_at(base, nb, nb - ns, sep);
        assert(base@.skip(nb - ns).subrange(0, ns as int) =~= base@.subrange(nb - ns, nb as int));
        e
    } else {
        false
    };
    let mut out = String::from_str(base);
    if !(nb == 0 || ends) {
        out.append(sep);
    }
    out.append(rel);
    out
}

} // verus!
