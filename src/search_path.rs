use vstd::prelude::*;

verus! {

pub const DOLLAR: u8 = 36;

pub const OPEN_BRACE: u8 = 123;

pub const CLOSE_BRACE: u8 = 125;

/// What each dynamic token of a library search path expands to: `ORIGIN`,
/// the directory of the running executable; `LIB`, the system library
/// directory name; `PLATFORM`, the processor name the loader reports.
pub struct DynamicTokens {
    pub origin: Vec<u8>,
    pub lib: Vec<u8>,
    pub platform: Vec<u8>,
}

pub open spec fn origin_name() -> Seq<u8> {
    seq![79u8, 82u8, 73u8, 71u8, 73u8, 78u8]
}

pub open spec fn lib_name() -> Seq<u8> {
    seq![76u8, 73u8, 66u8]
}

pub open spec fn platform_name() -> Seq<u8> {
    seq![80u8, 76u8, 65u8, 84u8, 70u8, 79u8, 82u8, 77u8]
}

/// The system library directory name for a pointer width in bits.
pub open spec fn lib_dir_for(pointer_width: u32) -> Seq<u8> {
    if pointer_width == 64 {
        seq![108u8, 105u8, 98u8, 54u8, 52u8]
    } else {
        seq![108u8, 105u8, 98u8]
    }
}

/// A byte that may continue an unbracketed token name: a letter or a digit
/// when read as a Latin-1 character, or `_`.
pub open spec fn is_name_byte(b: u8) -> bool {
    (48 <= b <= 57) || (65 <= b <= 90) || (97 <= b <= 122) || b == 95 || b == 0xAA
        || b == 0xB2 || b == 0xB3 || b == 0xB5 || b == 0xB9 || b == 0xBA || (0xBC <= b
        <= 0xBE) || (0xC0 <= b <= 0xD6) || (0xD8 <= b <= 0xF6) || 0xF8 <= b
}

/// The first index in `[from, to)` that holds `b`, or `to`.
pub open spec fn find_in(s: Seq<u8>, b: u8, from: int, to: int) -> int
    decreases to - from,
{
    if from >= to {
        to
    } else if s[from] == b {
        from
    } else {
        find_in(s, b, from + 1, to)
    }
}

/// The first index in `[from, to)` that holds no name byte, or `to`.
pub open spec fn find_non_name(s: Seq<u8>, from: int, to: int) -> int
    decreases to - from,
{
    if from >= to {
        to
    } else if !is_name_byte(s[from]) {
        from
    } else {
        find_non_name(s, from + 1, to)
    }
}

/// What a token name stands for, if it is one of the three known names.
pub open spec fn token_value(name: Seq<u8>, t: DynamicTokens) -> Option<Seq<u8>> {
    if name == origin_name() {
        Some(t.origin@)
    } else if name == lib_name() {
        Some(t.lib@)
    } else if name == platform_name() {
        Some(t.platform@)
    } else {
        None
    }
}

/// The token name of the non-empty segment `p[pos..end]` that followed a `$`,
/// and the text after it. A name in braces runs to the first `}` (or to the
/// end of the segment); a bare name runs over name bytes.
pub open spec fn segment_parts(p: Seq<u8>, pos: int, end: int) -> (Seq<u8>, Seq<u8>) {
    if p[pos] == OPEN_BRACE {
        let close = find_in(p, CLOSE_BRACE, pos + 1, end);
        if close < end {
            (p.subrange(pos + 1, close), p.subrange(close + 1, end))
        } else {
            (p.subrange(pos + 1, end), Seq::empty())
        }
    } else {
        let stop = find_non_name(p, pos, end);
        (p.subrange(pos, stop), p.subrange(stop, end))
    }
}

/// A known token and its segment's rest become the token's value and the
/// rest; an unknown one keeps `$` and the whole segment as written.
pub open spec fn expand_segment(p: Seq<u8>, pos: int, end: int, t: DynamicTokens) -> Seq<u8> {
    let (name, rest) = segment_parts(p, pos, end);
    match token_value(name, t) {
        Some(v) => v + rest,
        None => seq![DOLLAR] + p.subrange(pos, end),
    }
}

/// The expansion of the segments from `pos`, the index just after a `$`.
/// An empty segment (a `$` that ends the path or precedes another `$`) ends
/// the expansion.
pub open spec fn expand_from(p: Seq<u8>, pos: int, t: DynamicTokens) -> Seq<u8>
    decreases p.len() - pos,
    via expand_from_decreases
{
    if pos < 0 || pos > p.len() {
        Seq::empty()
    } else {
        let end = find_in(p, DOLLAR, pos, p.len() as int);
        if end == pos {
            Seq::empty()
        } else if end == p.len() {
            expand_segment(p, pos, end, t)
        } else {
            expand_segment(p, pos, end, t) + expand_from(p, end + 1, t)
        }
    }
}

#[via_fn]
proof fn expand_from_decreases(p: Seq<u8>, pos: int, t: DynamicTokens) {
    if 0 <= pos <= p.len() {
        lemma_find_in_bounds(p, DOLLAR, pos, p.len() as int);
    }
}

/// A path with each `$ORIGIN`, `$LIB` and `$PLATFORM` (or the same names in
/// braces) replaced by its value.
pub open spec fn expand_tokens(p: Seq<u8>, t: DynamicTokens) -> Seq<u8> {
    let first = find_in(p, DOLLAR, 0, p.len() as int);
    if first == p.len() {
        p
    } else {
        p.subrange(0, first) + expand_from(p, first + 1, t)
    }
}

pub proof fn lemma_find_in_bounds(s: Seq<u8>, b: u8, from: int, to: int)
    requires
        from <= to,
    ensures
        from <= find_in(s, b, from, to) <= to,
    decreases to - from,
{
    if from < to && s[from] != b {
        lemma_find_in_bounds(s, b, from + 1, to);
    }
}

proof fn lemma_find_in_is(s: Seq<u8>, b: u8, from: int, i: int, to: int)
    requires
        from <= i <= to <= s.len(),
        forall|j: int| from <= j < i ==> s[j] != b,
        i < to ==> s[i] == b,
    ensures
        find_in(s, b, from, to) == i,
    decreases i - from,
{
    if from < i {
        lemma_find_in_is(s, b, from + 1, i, to);
    }
}

proof fn lemma_find_non_name_is(s: Seq<u8>, from: int, i: int, to: int)
    requires
        from <= i <= to <= s.len(),
        forall|j: int| from <= j < i ==> is_name_byte(s[j]),
        i < to ==> !is_name_byte(s[i]),
    ensures
        find_non_name(s, from, to) == i,
    decreases i - from,
{
    if from < i {
        lemma_find_non_name_is(s, from + 1, i, to);
    }
}

fn name_byte(b: u8) -> (r: bool)
    ensures
        r == is_name_byte(b),
{
    (48 <= b && b <= 57) || (65 <= b && b <= 90) || (97 <= b && b <= 122) || b == 95 || b
        == 0xAA || b == 0xB2 || b == 0xB3 || b == 0xB5 || b == 0xB9 || b == 0xBA || (0xBC <= b
        && b <= 0xBE) || (0xC0 <= b && b <= 0xD6) || (0xD8 <= b && b <= 0xF6) || 0xF8 <= b
}

fn find_byte(s: &Vec<u8>, b: u8, from: usize, to: usize) -> (r: usize)
    requires
        from <= to <= s@.len(),
    ensures
        r == find_in(s@, b, from as int, to as int),
        from <= r <= to,
{
    let mut i = from;
    while i < to && s[i] != b
        invariant
            from <= i <= to <= s@.len(),
            forall|j: int| from <= j < i ==> s@[j] != b,
        decreases to - i,
    {
        i = i + 1;
    }
    proof {
        lemma_find_in_is(s@, b, from as int, i as int, to as int);
    }
    i
}

fn find_name_end(s: &Vec<u8>, from: usize, to: usize) -> (r: usize)
    requires
        from <= to <= s@.len(),
    ensures
        r == find_non_name(s@, from as int, to as int),
        from <= r <= to,
{
    let mut i = from;
    while i < to && name_byte(s[i])
        invariant
            from <= i <= to <= s@.len(),
            forall|j: int| from <= j < i ==> is_name_byte(s@[j]),
        decreases to - i,
    {
        i = i + 1;
    }
    proof {
        lemma_find_non_name_is(s@, from as int, i as int, to as int);
    }
    i
}

fn push_range(out: &mut Vec<u8>, s: &Vec<u8>, from: usize, to: usize)
    requires
        from <= to <= s@.len(),
    ensures
        final(out)@ == old(out)@ + s@.subrange(from as int, to as int),
{
    let mut i = from;
    while i < to
        invariant
            from <= i <= to <= s@.len(),
            out@ == old(out)@ + s@.subrange(from as int, i as int),
        decreases to - i,
    {
        out.push(s[i]);
        i = i + 1;
        assert(out@ =~= old(out)@ + s@.subrange(from as int, i as int));
    }
}

fn push_all(out: &mut Vec<u8>, s: &Vec<u8>)
    ensures
        final(out)@ == old(out)@ + s@,
{
    push_range(out, s, 0, s.len());
    assert(s@.subrange(0, s@.len() as int) =~= s@);
}

fn range_is(s: &Vec<u8>, from: usize, to: usize, word: &Vec<u8>) -> (r: bool)
    requires
        from <= to <= s@.len(),
    ensures
        r == (s@.subrange(from as int, to as int) == word@),
{
    if to - from != word.len() {
        return false;
    }
    let mut i: usize = 0;
    while i < word.len()
        invariant
            to - from == word@.len(),
            from <= to <= s@.len(),
            0 <= i <= word@.len(),
            forall|j: int| 0 <= j < i ==> s@[from + j] == word@[j],
        decreases word@.len() - i,
    {
        if s[from + i] != word[i] {
            assert(s@.subrange(from as int, to as int)[i as int] != word@[i as int]);
            return false;
        }
        i = i + 1;
    }
    assert(s@.subrange(from as int, to as int) =~= word@);
    true
}

impl DynamicTokens {
    /// The token values for an executable in directory `origin`, on a
    /// processor the loader names `platform`, with pointers of
    /// `pointer_width` bits: `LIB` is `lib64` for 64 bits and `lib` otherwise.
    pub fn new(origin: Vec<u8>, platform: Vec<u8>, pointer_width: u32) -> (r: DynamicTokens)
        ensures
            r.origin@ == origin@,
            r.platform@ == platform@,
            r.lib@ == lib_dir_for(pointer_width),
    {
        let lib = if pointer_width == 64 {
            vec![108u8, 105u8, 98u8, 54u8, 52u8]
        } else {
            vec![108u8, 105u8, 98u8]
        };
        proof {
            assert(lib@ =~= lib_dir_for(pointer_width));
        }
        DynamicTokens { origin, lib, platform }
    }

    fn value_of(&self, s: &Vec<u8>, from: usize, to: usize) -> (r: Option<&Vec<u8>>)
        requires
            from <= to <= s@.len(),
        ensures
            r matches Some(v) ==> token_value(s@.subrange(from as int, to as int), *self) == Some(
                v@,
            ),
            r is None ==> token_value(s@.subrange(from as int, to as int), *self) is None,
    {
        let origin = vec![79u8, 82u8, 73u8, 71u8, 73u8, 78u8];
        let lib = vec![76u8, 73u8, 66u8];
        let platform = vec![80u8, 76u8, 65u8, 84u8, 70u8, 79u8, 82u8, 77u8];
        proof {
            assert(origin@ =~= origin_name());
            assert(lib@ =~= lib_name());
            assert(platform@ =~= platform_name());
        }
        if range_is(s, from, to, &origin) {
            Some(&self.origin)
        } else if range_is(s, from, to, &lib) {
            Some(&self.lib)
        } else if range_is(s, from, to, &platform) {
            Some(&self.platform)
        } else {
            None
        }
    }

    fn push_segment(&self, out: &mut Vec<u8>, p: &Vec<u8>, pos: usize, end: usize)
        requires
            pos < end <= p@.len(),
        ensures
            final(out)@ == old(out)@ + expand_segment(p@, pos as int, end as int, *self),
    {
        let (name_from, name_to, rest_from) = if p[pos] == OPEN_BRACE {
            let close = find_byte(p, CLOSE_BRACE, pos + 1, end);
            if close < end {
                (pos + 1, close, close + 1)
            } else {
                (pos + 1, end, end)
            }
        } else {
            let stop = find_name_end(p, pos, end);
            (pos, stop, stop)
        };
        proof {
            let (name, rest) = segment_parts(p@, pos as int, end as int);
            assert(name =~= p@.subrange(name_from as int, name_to as int));
            assert(rest =~= p@.subrange(rest_from as int, end as int));
        }
        match self.value_of(p, name_from, name_to) {
            Some(v) => {
                push_all(out, v);
                push_range(out, p, rest_from, end);
                assert(final(out)@ =~= old(out)@ + expand_segment(p@, pos as int, end as int, *self));
            },
            None => {
                out.push(DOLLAR);
                push_range(out, p, pos, end);
                assert(final(out)@ =~= old(out)@ + expand_segment(p@, pos as int, end as int, *self));
            },
        }
    }

    /// Expands the dynamic tokens of one path.
    pub fn expand_path(&self, path: &Vec<u8>) -> (r: Vec<u8>)
        ensures
            r@ == expand_tokens(path@, *self),
    {
        let len = path.len();
        let first = find_byte(path, DOLLAR, 0, len);
        let mut out: Vec<u8> = Vec::new();
        push_range(&mut out, path, 0, first);
        if first == len {
            assert(out@ =~= path@);
            return out;
        }
        let mut pos = first + 1;
        assert(out@ =~= path@.subrange(0, first as int));
        loop
            invariant
                pos <= len == path@.len(),
                out@ + expand_from(path@, pos as int, *self) == expand_tokens(path@, *self),
            decreases len - pos,
        {
            let end = find_byte(path, DOLLAR, pos, len);
            if end == pos {
                assert(out@ + Seq::<u8>::empty() =~= out@);
                return out;
            }
            let ghost before = out@;
            self.push_segment(&mut out, path, pos, end);
            if end == len {
                return out;
            }
            assert(before + expand_from(path@, pos as int, *self) =~= out@ + expand_from(
                path@,
                end + 1,
                *self,
            ));
            pos = end + 1;
        }
    }
}

/// Expands the dynamic tokens of each path, keeping their order.
pub fn expand_dynamic_tokens(paths: &Vec<Vec<u8>>, tokens: &DynamicTokens) -> (r: Vec<Vec<u8>>)
    ensures
        r@.len() == paths@.len(),
        forall|i: int| 0 <= i < paths@.len() ==> r@[i]@ == expand_tokens(paths@[i]@, *tokens),
{
    let mut out: Vec<Vec<u8>> = Vec::new();
    let mut i: usize = 0;
    while i < paths.len()
        invariant
            0 <= i <= paths@.len(),
            out@.len() == i,
            forall|j: int| 0 <= j < i ==> out@[j]@ == expand_tokens(paths@[j]@, *tokens),
        decreases paths@.len() - i,
    {
        out.push(tokens.expand_path(&paths[i]));
        i = i + 1;
    }
    out
}

} // verus!
