//! Where the parameter and log tables of a Crazyflie are cached on disk:
//! one file per table, named by the lowercase hex of the table's key, in a
//! per-user cache directory.
use vstd::prelude::*;
use crate::text::chars_of;

verus! {

/// The bytes of an ASCII text.
pub open spec fn ascii_bytes(s: Seq<char>) -> Seq<u8> {
    s.map_values(|c: char| c as u8)
}

/// The bytes of an ASCII text, as a vector.
pub fn ascii_bytes_of(s: &str) -> (v: Vec<u8>)
    ensures
        v@ == ascii_bytes(s@),
{
    let cs = chars_of(s);
    let mut v: Vec<u8> = Vec::new();
    let mut i: usize = 0;
    while i < cs.len()
        invariant
            i <= cs.len(),
            cs@ == s@,
            v@ == ascii_bytes(cs@.subrange(0, i as int)),
        decreases cs.len() - i,
    {
        v.push(cs[i] as u8);
        assert(ascii_bytes(cs@.subrange(0, i + 1)) =~= ascii_bytes(cs@.subrange(0, i as int)).push(
            cs@[i as int] as u8,
        ));
        i = i + 1;
    }
    assert(cs@.subrange(0, cs.len() as int) =~= cs@);
    v
}

/// Lowercase hex digit of a value below 16, as an ASCII byte.
pub open spec fn hex_digit(n: int) -> u8 {
    if n < 10 {
        (48 + n) as u8
    } else {
        (87 + n) as u8
    }
}

/// Lowercase hex of a byte string, as ASCII bytes: two digits per byte,
/// high half first.
pub open spec fn lower_hex(bytes: Seq<u8>) -> Seq<u8>
    decreases bytes.len(),
{
    if bytes.len() == 0 {
        Seq::empty()
    } else {
        seq![hex_digit(bytes[0] as int / 16), hex_digit(bytes[0] as int % 16)] + lower_hex(bytes.drop_first())
    }
}

/// `hex::encode` of the hex crate ("Encodes data as hex string using
/// lowercase characters ... each byte in data is always encoded using two
/// hex digits"), taken as the bytes of that string. Contract: the result is
/// the lowercase hex of the bytes.
#[verifier::external_body]
fn hex_encode(bytes: &[u8]) -> (s: Vec<u8>)
    ensures
        s@ == lower_hex(bytes@),
{
    hex::encode(bytes).into_bytes()
}

/// `dirs::cache_dir` of the dirs crate, taken as the bytes of the path.
/// Nothing is stated of the result: it depends on the platform and on the
/// environment of the process (such as XDG_CACHE_HOME and HOME).
#[verifier::external_body]
fn user_cache_dir() -> (d: Option<Vec<u8>>) {
    dirs::cache_dir().map(|p| p.into_os_string().into_encoded_bytes())
}

/// `base` joined with the relative path `component` as a path: a '/' is put
/// between them unless `base` is empty or already ends with one.
pub open spec fn path_join(base: Seq<u8>, component: Seq<u8>) -> Seq<u8> {
    if base.len() == 0 || base.last() == 47u8 {
        base + component
    } else {
        base + seq![47u8] + component
    }
}

fn append_bytes(v: &mut Vec<u8>, s: &[u8])
    ensures
        final(v)@ == old(v)@ + s@,
{
    let mut i: usize = 0;
    while i < s.len()
        invariant
            i <= s.len(),
            v@ == old(v)@ + s@.subrange(0, i as int),
        decreases s.len() - i,
    {
        v.push(s[i]);
        assert(old(v)@ + s@.subrange(0, i + 1) =~= old(v)@ + s@.subrange(0, i as int) + seq![s@[i as int]]);
        i = i + 1;
    }
    assert(s@.subrange(0, s.len() as int) =~= s@);
}

/// Joins a relative path component to a base path (see `path_join`).
pub fn join_path(base: &[u8], component: &[u8]) -> (p: Vec<u8>)
    ensures
        p@ == path_join(base@, component@),
{
    let mut p: Vec<u8> = Vec::new();
    append_bytes(&mut p, base);
    if base.len() > 0 && base[base.len() - 1] != 47u8 {
        p.push(47u8);
    }
    append_bytes(&mut p, component);
    assert(p@ =~= path_join(base@, component@));
    p
}

/// The cache directory for a given user cache root, or /tmp when there is
/// none: `<root>/crazyflie-agent-cli/toc-cache`.
pub open spec fn toc_dir_spec(root: Option<Seq<u8>>) -> Seq<u8> {
    let base = match root {
        Some(r) => r,
        None => ascii_bytes("/tmp"@),
    };
    path_join(path_join(base, ascii_bytes("crazyflie-agent-cli"@)), ascii_bytes("toc-cache"@))
}

/// A cache of Crazyflie tables kept as files in one directory. Paths are
/// byte strings, as the platform gives them.
#[derive(Clone, Debug)]
pub struct FileTocCache {
    dir: Vec<u8>,
}

impl View for FileTocCache {
    type V = Seq<u8>;

    /// The cache directory.
    closed spec fn view(&self) -> Seq<u8> {
        self.dir@
    }
}

/// The file of the table with key `key` in the cache directory `dir`.
pub open spec fn entry_path_spec(dir: Seq<u8>, key: Seq<u8>) -> Seq<u8> {
    path_join(dir, lower_hex(key))
}

impl FileTocCache {
    /// The cache in the per-user cache directory, or under /tmp when the
    /// platform has none. The directory itself is not created here.
    pub fn new() -> (c: FileTocCache)
        ensures
            exists|root: Option<Seq<u8>>| c@ == toc_dir_spec(root),
    {
        let root = user_cache_dir();
        let c = FileTocCache::with_cache_root(root);
        assert(c@ == toc_dir_spec(match root {
            Some(r) => Some(r@),
            None => None,
        }));
        c
    }

    /// The cache under the given user cache root, or under /tmp when there
    /// is none.
    pub fn with_cache_root(root: Option<Vec<u8>>) -> (c: FileTocCache)
        ensures
            c@ == toc_dir_spec(
                match root {
                    Some(r) => Some(r@),
                    None => None,
                },
            ),
    {
        let base = match root {
            Some(r) => r,
            None => ascii_bytes_of("/tmp"),
        };
        let app = join_path(base.as_slice(), ascii_bytes_of("crazyflie-agent-cli").as_slice());
        let dir = join_path(app.as_slice(), ascii_bytes_of("toc-cache").as_slice());
        FileTocCache { dir }
    }

    /// The cache directory.
    pub fn dir(&self) -> (d: &[u8])
        ensures
            d@ == self@,
    {
        self.dir.as_slice()
    }

    /// The file that holds the table with key `key`: the cache directory
    /// joined with the lowercase hex of the key.
    pub fn entry_path(&self, key: &[u8]) -> (p: Vec<u8>)
        ensures
            p@ == entry_path_spec(self@, key@),
    {
        let name = hex_encode(key);
        join_path(self.dir.as_slice(), name.as_slice())
    }
}

proof fn lemma_hex_digit_injective(a: int, b: int)
    requires
        0 <= a < 16,
        0 <= b < 16,
        hex_digit(a) == hex_digit(b),
    ensures
        a == b,
{
}

proof fn lemma_lower_hex_len(bytes: Seq<u8>)
    ensures
        lower_hex(bytes).len() == 2 * bytes.len(),
    decreases bytes.len(),
{
    if bytes.len() > 0 {
        lemma_lower_hex_len(bytes.drop_first());
    }
}

proof fn lemma_lower_hex_injective(a: Seq<u8>, b: Seq<u8>)
    requires
        lower_hex(a) == lower_hex(b),
    ensures
        a == b,
    decreases a.len(),
{
    lemma_lower_hex_len(a);
    lemma_lower_hex_len(b);
    if a.len() > 0 {
        let ha = lower_hex(a);
        let hb = lower_hex(b);
        assert(ha[0] == hb[0] && ha[1] == hb[1]);
        assert(ha[0] == hex_digit(a[0] as int / 16) && hb[0] == hex_digit(b[0] as int / 16));
        assert(ha[1] == hex_digit(a[0] as int % 16) && hb[1] == hex_digit(b[0] as int % 16));
        lemma_hex_digit_injective(a[0] as int / 16, b[0] as int / 16);
        lemma_hex_digit_injective(a[0] as int % 16, b[0] as int % 16);
        assert(a[0] == b[0]);
        assert(ha.subrange(2, ha.len() as int) =~= lower_hex(a.drop_first()));
        assert(hb.subrange(2, hb.len() as int) =~= lower_hex(b.drop_first()));
        lemma_lower_hex_injective(a.drop_first(), b.drop_first());
        assert(a =~= seq![a[0]] + a.drop_first());
        assert(b =~= seq![b[0]] + b.drop_first());
    } else {
        assert(a =~= b);
    }
}

/// Law: tables with different keys are cached in different files.
pub proof fn law_distinct_keys_distinct_files(dir: Seq<u8>, k1: Seq<u8>, k2: Seq<u8>)
    requires
        k1 != k2,
    ensures
        entry_path_spec(dir, k1) != entry_path_spec(dir, k2),
{
    if entry_path_spec(dir, k1) == entry_path_spec(dir, k2) {
        let p = if dir.len() == 0 || dir.last() == 47u8 {
            dir
        } else {
            dir + seq![47u8]
        };
        let e1 = entry_path_spec(dir, k1);
        assert(e1 == p + lower_hex(k1));
        assert(entry_path_spec(dir, k2) == p + lower_hex(k2));
        assert(lower_hex(k1) =~= e1.subrange(p.len() as int, e1.len() as int));
        assert(lower_hex(k2) =~= e1.subrange(p.len() as int, e1.len() as int));
        lemma_lower_hex_injective(k1, k2);
    }
}

} // verus!
