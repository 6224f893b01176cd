//! Glyph pools that rain columns draw from.

use vstd::prelude::*;

use crate::random::random_below;
use crate::text::str_eq;

verus! {

/// `s` is the `n` consecutive characters from code point `first` on.
pub open spec fn is_run(s: Seq<char>, first: u32, n: nat) -> bool {
    &&& s.len() == n
    &&& forall|i: int| 0 <= i < n ==> #[trigger] (s[i] as u32) == first + i
}

/// The 58 half-width katakana, U+FF66 to U+FF9F.
pub open spec fn is_katakana(s: Seq<char>) -> bool {
    is_run(s, 0xFF66, 58)
}

/// The digits `0` to `9`.
pub open spec fn is_digits(s: Seq<char>) -> bool {
    is_run(s, 0x30, 10)
}

/// The symbols that the matrix set adds to katakana and digits.
pub open spec fn matrix_symbols() -> Seq<char> {
    seq![':', '.', '"', '=', '*', '+', '-', '<', '>', '|', '~', '^']
}

/// Katakana, then digits, then the twelve symbols.
pub open spec fn is_matrix(s: Seq<char>) -> bool {
    &&& s.len() == 80
    &&& is_katakana(s.take(58))
    &&& is_digits(s.subrange(58, 68))
    &&& s.skip(68) == matrix_symbols()
}

/// The printable ASCII characters `!` to `~`.
pub open spec fn is_ascii_printable(s: Seq<char>) -> bool {
    is_run(s, 0x21, 94)
}

/// `A` to `Z`, then `a` to `z`.
pub open spec fn is_latin(s: Seq<char>) -> bool {
    &&& s.len() == 52
    &&& is_run(s.take(26), 0x41, 26)
    &&& is_run(s.skip(26), 0x61, 26)
}

/// The pool of `0` and `1`.
pub open spec fn is_binary(s: Seq<char>) -> bool {
    s == seq!['0', '1']
}

/// The names of the glyph sets, in display order.
pub open spec fn charset_names_spec() -> Seq<Seq<char>> {
    seq!["matrix"@, "ascii"@, "binary"@, "digits"@, "katakana"@, "latin"@]
}

/// The names of the glyph sets, in display order.
pub fn charset_names() -> (r: Vec<&'static str>)
    ensures
        r@.map_values(|s: &'static str| s@) == charset_names_spec(),
{
    let r = vec!["matrix", "ascii", "binary", "digits", "katakana", "latin"];
    assert(r@.map_values(|s: &'static str| s@) =~= charset_names_spec());
    r
}

/// A non-empty pool of glyphs.
pub struct CharacterPool {
    chars: Vec<char>,
}

impl View for CharacterPool {
    type V = Seq<char>;

    closed spec fn view(&self) -> Seq<char> {
        self.chars@
    }
}

/// Appends the `n` consecutive ASCII characters from `first` on.
fn push_ascii_run(v: &mut Vec<char>, first: u8, n: u8)
    requires
        first as int + n as int <= 128,
    ensures
        final(v)@.len() == old(v)@.len() + n,
        final(v)@.take(old(v)@.len() as int) == old(v)@,
        is_run(final(v)@.skip(old(v)@.len() as int), first as u32, n as nat),
{
    let ghost start = v@.len();
    let mut i: u8 = 0;
    while i < n
        invariant
            i <= n,
            first as int + n as int <= 128,
            v@.len() == start + i,
            v@.take(start as int) == old(v)@,
            start == old(v)@.len(),
            forall|k: int| 0 <= k < i ==> #[trigger] (v@[start + k] as u32) == first + k,
        decreases n - i,
    {
        v.push((first + i) as char);
        i += 1;
    }
    assert(v@.take(start as int) =~= old(v)@);
    assert forall|k: int| 0 <= k < n implies #[trigger] (v@.skip(start as int)[k] as u32) == first + k by {
        assert(v@.skip(start as int)[k] == v@[start + k]);
    }
}

fn katakana_chars() -> (r: Vec<char>)
    ensures
        is_katakana(r@),
{
    vec![
        '\u{FF66}', '\u{FF67}', '\u{FF68}', '\u{FF69}', '\u{FF6A}', '\u{FF6B}', '\u{FF6C}', '\u{FF6D}',
        '\u{FF6E}', '\u{FF6F}', '\u{FF70}', '\u{FF71}', '\u{FF72}', '\u{FF73}', '\u{FF74}', '\u{FF75}',
        '\u{FF76}', '\u{FF77}', '\u{FF78}', '\u{FF79}', '\u{FF7A}', '\u{FF7B}', '\u{FF7C}', '\u{FF7D}',
        '\u{FF7E}', '\u{FF7F}', '\u{FF80}', '\u{FF81}', '\u{FF82}', '\u{FF83}', '\u{FF84}', '\u{FF85}',
        '\u{FF86}', '\u{FF87}', '\u{FF88}', '\u{FF89}', '\u{FF8A}', '\u{FF8B}', '\u{FF8C}', '\u{FF8D}',
        '\u{FF8E}', '\u{FF8F}', '\u{FF90}', '\u{FF91}', '\u{FF92}', '\u{FF93}', '\u{FF94}', '\u{FF95}',
        '\u{FF96}', '\u{FF97}', '\u{FF98}', '\u{FF99}', '\u{FF9A}', '\u{FF9B}', '\u{FF9C}', '\u{FF9D}',
        '\u{FF9E}', '\u{FF9F}',
    ]
}

impl CharacterPool {
    /// The pool holds at least one glyph.
    pub open spec fn wf(&self) -> bool {
        self@.len() > 0
    }

    /// Half-width katakana, then the digits, then twelve symbols.
    pub fn matrix() -> (r: CharacterPool)
        ensures
            r.wf(),
            is_matrix(r@),
    {
        let mut chars = katakana_chars();
        let ghost k = chars@;
        push_ascii_run(&mut chars, 0x30, 10);
        let ghost kd = chars@;
        assert(kd.len() == 68) by {
            assert(kd.skip(58).len() == 10);
        }
        let symbols = [':', '.', '"', '=', '*', '+', '-', '<', '>', '|', '~', '^'];
        let mut i: usize = 0;
        while i < 12
            invariant
                i <= 12,
                chars@.len() == 68 + i,
                chars@.take(68) == kd,
                forall|j: int| 0 <= j < i ==> chars@[68 + j] == symbols@[j],
            decreases 12 - i,
        {
            chars.push(symbols[i]);
            i += 1;
        }
        assert(kd.take(58) == k);
        assert(chars@.take(58) =~= k);
        assert(chars@.subrange(58, 68) =~= kd.skip(58));
        assert(chars@.skip(68) =~= matrix_symbols());
        CharacterPool { chars }
    }

    /// The printable ASCII characters, `!` to `~`.
    pub fn ascii() -> (r: CharacterPool)
        ensures
            r.wf(),
            is_ascii_printable(r@),
    {
        let mut chars: Vec<char> = Vec::new();
        push_ascii_run(&mut chars, 0x21, 94);
        assert(chars@.skip(0) =~= chars@);
        CharacterPool { chars }
    }

    /// `0` and `1`.
    pub fn binary() -> (r: CharacterPool)
        ensures
            r.wf(),
            is_binary(r@),
    {
        let chars = vec!['0', '1'];
        assert(chars@ =~= seq!['0', '1']);
        CharacterPool { chars }
    }

    /// The digits `0` to `9`.
    pub fn digits() -> (r: CharacterPool)
        ensures
            r.wf(),
            is_digits(r@),
    {
        let mut chars: Vec<char> = Vec::new();
        push_ascii_run(&mut chars, 0x30, 10);
        assert(chars@.skip(0) =~= chars@);
        CharacterPool { chars }
    }

    /// Half-width katakana only.
    pub fn katakana() -> (r: CharacterPool)
        ensures
            r.wf(),
            is_katakana(r@),
    {
        CharacterPool { chars: katakana_chars() }
    }

    /// `A` to `Z`, then `a` to `z`.
    pub fn latin() -> (r: CharacterPool)
        ensures
            r.wf(),
            is_latin(r@),
    {
        let mut chars: Vec<char> = Vec::new();
        push_ascii_run(&mut chars, 0x41, 26);
        assert(chars@.skip(0) =~= chars@);
        let ghost upper = chars@;
        assert(upper.len() == 26);
        push_ascii_run(&mut chars, 0x61, 26);
        assert(chars@.skip(26).len() == 26);
        assert(chars@.take(26) == upper);
        CharacterPool { chars }
    }

    /// The number of glyphs in the pool.
    pub fn len(&self) -> (r: usize)
        ensures
            r == self@.len(),
    {
        self.chars.len()
    }

    /// Whether the pool holds `c`.
    pub fn contains(&self, c: char) -> (r: bool)
        ensures
            r == self@.contains(c),
    {
        let mut i: usize = 0;
        while i < self.chars.len()
            invariant
                i <= self@.len(),
                forall|j: int| 0 <= j < i ==> self@[j] != c,
            decreases self@.len() - i,
        {
            if self.chars[i] == c {
                return true;
            }
            i += 1;
        }
        false
    }

    /// A glyph of the pool, chosen at random.
    pub fn random_char(&self, rng: &mut rand::rngs::StdRng) -> (r: char)
        requires
            self.wf(),
        ensures
            self@.contains(r),
    {
        let idx = random_below(rng, self.chars.len() as u64) as usize;
        self.chars[idx]
    }
}

/// The glyph pool of the given name; an unknown name gives the matrix set.
pub fn charset_by_name(name: &str) -> (r: CharacterPool)
    ensures
        r.wf(),
        name@ == "ascii"@ ==> is_ascii_printable(r@),
        name@ == "binary"@ ==> is_binary(r@),
        name@ == "digits"@ ==> is_digits(r@),
        name@ == "katakana"@ ==> is_katakana(r@),
        name@ == "latin"@ ==> is_latin(r@),
        name@ != "ascii"@ && name@ != "binary"@ && name@ != "digits"@ && name@ != "katakana"@
            && name@ != "latin"@ ==> is_matrix(r@),
{
    proof {
        reveal_strlit("matrix");
        reveal_strlit("ascii");
        reveal_strlit("binary");
        reveal_strlit("digits");
        reveal_strlit("katakana");
        reveal_strlit("latin");
        assert("ascii"@.len() == 5 && "binary"@.len() == 6 && "digits"@.len() == 6);
        assert("katakana"@.len() == 8 && "latin"@.len() == 5);
        assert("ascii"@[0] == 'a' && "latin"@[0] == 'l' && "binary"@[0] == 'b' && "digits"@[0] == 'd');
    }
    if str_eq(name, "ascii") {
        CharacterPool::ascii()
    } else if str_eq(name, "binary") {
        CharacterPool::binary()
    } else if str_eq(name, "digits") {
        CharacterPool::digits()
    } else if str_eq(name, "katakana") {
        CharacterPool::katakana()
    } else if str_eq(name, "latin") {
        CharacterPool::latin()
    } else {
        CharacterPool::matrix()
    }
}

} // verus!
