use vstd::prelude::*;

verus! {

/// `s` with the first occurrence of `c` replaced by `with`, or `s` itself
/// when `c` does not occur in it.
pub open spec fn replace_first(s: Seq<char>, c: char, with: Seq<char>) -> Seq<char> {
    match s.index_of_first(c) {
        Some(i) => s.take(i) + with + s.skip(i + 1),
        None => s,
    }
}

/// A playlist line after normalisation: an empty line is dropped, any other
/// line has its first `~` replaced by the home directory.
pub open spec fn spec_normalize_line(line: Seq<char>, home: Seq<char>) -> Option<Seq<char>> {
    if line.len() == 0 {
        None
    } else {
        Some(replace_first(line, '~', home))
    }
}

/// Every line normalised, the dropped ones left out, in their order.
pub open spec fn spec_normalize(lines: Seq<Seq<char>>, home: Seq<char>) -> Seq<Seq<char>> {
    lines.filter_map(|l: Seq<char>| spec_normalize_line(l, home))
}

/// The text of each string.
pub open spec fn texts(v: Seq<String>) -> Seq<Seq<char>> {
    v.map_values(|s: String| s@)
}

/// The text of an optional string.
pub open spec fn opt_text(o: Option<String>) -> Option<Seq<char>> {
    match o {
        Some(s) => Some(s@),
        None => None,
    }
}

/// Proof that a position is the first occurrence of `c` in `s`.
proof fn lemma_index_of_first_at(s: Seq<char>, c: char, i: int)
    requires
        0 <= i < s.len(),
        s[i] == c,
        forall|j: int| 0 <= j < i ==> s[j] != c,
    ensures
        s.index_of_first(c) == Some(i),
{
    s.index_of_first_ensures(c);
    assert(s.contains(c));
}

/// `s` with its first `~` replaced by `home` (`s` itself when it holds no `~`).
pub fn replace_first_tilde(s: &str, home: &str) -> (r: String)
    ensures
        r@ == replace_first(s@, '~', home@),
{
    let n = s.unicode_len();
    let mut i: usize = 0;
    while i < n
        invariant
            n == s@.len(),
            i <= n,
            forall|j: int| 0 <= j < i ==> s@[j] != '~',
        decreases n - i,
    {
        if s.get_char(i) == '~' {
            let mut out = String::from_str(s.substring_char(0, i));
            out.append(home);
            out.append(s.substring_char(i + 1, n));
            proof {
                lemma_index_of_first_at(s@, '~', i as int);
                assert(s@.skip(i + 1) =~= s@.subrange(i + 1, n as int));
                assert(s@.take(i as int) =~= s@.subrange(0, i as int));
            }
            return out;
        }
        i += 1;
    }
    proof {
        s@.index_of_first_ensures('~');
    }
    String::from_str(s)
}

/// Normalises one playlist line: `None` for an empty line, otherwise the line
/// with its first `~` replaced by `home`.
pub fn normalize_line(s: &str, home: &str) -> (r: Option<String>)
    ensures
        opt_text(r) == spec_normalize_line(s@, home@),
{
    if s.is_empty() {
        None
    } else {
        Some(replace_first_tilde(s, home))
    }
}

/// Normalises every line (see [`normalize_line`]) and keeps the ones that
/// are not dropped, in order.
pub fn normalize(lines: &Vec<String>, home: &str) -> (r: Vec<String>)
    ensures
        texts(r@) == spec_normalize(texts(lines@), home@),
{
    let mut out: Vec<String> = Vec::new();
    let ghost f = |l: Seq<char>| spec_normalize_line(l, home@);
    let mut i: usize = 0;
    while i < lines.len()
        invariant
            i <= lines.len(),
            f == (|l: Seq<char>| spec_normalize_line(l, home@)),
            texts(out@) == texts(lines@).take(i as int).filter_map(f),
        decreases lines.len() - i,
    {
        proof {
            texts(lines@).lemma_filter_map_take_succ(f, i as int);
        }
        let line = normalize_line(lines[i].as_str(), home);
        match line {
            Some(l) => {
                out.push(l);
                assert(texts(out@) =~= texts(lines@).take(i as int).filter_map(f) + seq![
                    f(texts(lines@)[i as int]).unwrap(),
                ]);
            },
            None => {},
        }
        i += 1;
    }
    assert(texts(lines@).take(lines.len() as int) =~= texts(lines@));
    out
}

/// The text of a line that was read; nothing for a line whose read failed.
pub open spec fn read_text<E>(r: Result<String, E>) -> Seq<char> {
    match r {
        Ok(s) => s@,
        Err(_) => Seq::empty(),
    }
}

/// The texts of the lines that were read.
pub open spec fn read_texts<E>(lines: Seq<Result<String, E>>) -> Seq<Seq<char>> {
    lines.map_values(|r: Result<String, E>| read_text(r))
}

/// Every line was read without error.
pub open spec fn all_read<E>(lines: Seq<Result<String, E>>) -> bool {
    forall|j: int| 0 <= j < lines.len() ==> (#[trigger] lines[j]) is Ok
}

/// `k` is the position of the first line whose read failed.
pub open spec fn first_failure<E>(lines: Seq<Result<String, E>>, k: int) -> bool {
    &&& 0 <= k < lines.len()
    &&& lines[k] is Err
    &&& forall|j: int| 0 <= j < k ==> (#[trigger] lines[j]) is Ok
}

/// Collects the lines of a playlist as they were read, in order.
///
/// The first failed read is the result; when every line was read, the result
/// is the lines normalised as by [`normalize`].
pub fn to_vec<E>(lines: Vec<Result<String, E>>, home: &str) -> (r: Result<Vec<String>, E>)
    ensures
        match r {
            Ok(v) => all_read(lines@) && texts(v@) == spec_normalize(read_texts(lines@), home@),
            Err(e) => exists|k: int| first_failure(lines@, k) && lines@[k] == Err::<String, E>(e),
        },
{
    let mut k: usize = 0;
    while k < lines.len()
        invariant
            k <= lines.len(),
            forall|j: int| 0 <= j < k ==> (#[trigger] lines@[j]) is Ok,
        decreases lines.len() - k,
    {
        if lines[k].is_err() {
            let ghost old_lines = lines@;
            let mut lines = lines;
            let failed = lines.remove(k);
            match failed {
                Err(e) => {
                    assert(first_failure(old_lines, k as int));
                    return Err(e);
                },
                Ok(_) => {
                    assert(false);
                    return Ok(Vec::new());
                },
            }
        }
        k += 1;
    }
    let mut out: Vec<String> = Vec::new();
    let ghost f = |l: Seq<char>| spec_normalize_line(l, home@);
    let mut i: usize = 0;
    while i < lines.len()
        invariant
            i <= lines.len(),
            all_read(lines@),
            f == (|l: Seq<char>| spec_normalize_line(l, home@)),
            texts(out@) == read_texts(lines@).take(i as int).filter_map(f),
        decreases lines.len() - i,
    {
        proof {
            read_texts(lines@).lemma_filter_map_take_succ(f, i as int);
        }
        let line = match &lines[i] {
            Ok(s) => normalize_line(s.as_str(), home),
            Err(_) => None,
        };
        match line {
            Some(l) => {
                out.push(l);
                assert(texts(out@) =~= read_texts(lines@).take(i as int).filter_map(f) + seq![
                    f(read_texts(lines@)[i as int]).unwrap(),
                ]);
            },
            None => {},
        }
        i += 1;
    }
    assert(read_texts(lines@).take(lines.len() as int) =~= read_texts(lines@));
    Ok(out)
}

/// Normalising drops exactly the empty lines: as many lines come out as
/// there are non-empty lines going in.
pub proof fn lemma_normalize_drops_only_empty_lines(lines: Seq<Seq<char>>, home: Seq<char>)
    ensures
        spec_normalize(lines, home).len() == lines.filter(|l: Seq<char>| l.len() > 0).len(),
    decreases lines.len(),
{
    reveal(Seq::filter);
    if lines.len() > 0 {
        lemma_normalize_drops_only_empty_lines(lines.drop_last(), home);
    }
}

/// A non-empty line without `~` comes out of normalisation unchanged.
pub proof fn lemma_normalize_line_without_tilde(line: Seq<char>, home: Seq<char>)
    requires
        line.len() > 0,
        !line.contains('~'),
    ensures
        spec_normalize_line(line, home) == Some(line),
{
    line.index_of_first_ensures('~');
}

/// When every line was read, collecting the lines read (see [`to_vec`])
/// yields what normalising their texts (see [`normalize`]) yields.
pub proof fn lemma_to_vec_agrees_with_normalize<E>(
    lines: Seq<Result<String, E>>,
    strings: Seq<String>,
    home: Seq<char>,
)
    requires
        lines.len() == strings.len(),
        forall|j: int| 0 <= j < lines.len() ==> #[trigger] lines[j] == Ok::<String, E>(strings[j]),
    ensures
        all_read(lines),
        spec_normalize(read_texts(lines), home) == spec_normalize(texts(strings), home),
{
    assert(read_texts(lines) =~= texts(strings));
}

/// Replacing the first `~`: a text without `~` is left as it is, and in a
/// text `a ~ b` where `a` holds no `~`, that `~` (and only it) becomes `home`.
pub proof fn lemma_replace_first_tilde(a: Seq<char>, b: Seq<char>, home: Seq<char>)
    requires
        !a.contains('~'),
    ensures
        replace_first(a, '~', home) == a,
        replace_first(a + seq!['~'] + b, '~', home) == a + home + b,
{
    a.index_of_first_ensures('~');
    let s = a + seq!['~'] + b;
    assert(s[a.len() as int] == '~');
    assert forall|j: int| 0 <= j < a.len() implies s[j] != '~' by {
        assert(s[j] == a[j]);
        if a[j] == '~' {
            assert(a.contains('~'));
        }
    }
    lemma_index_of_first_at(s, '~', a.len() as int);
    assert(s.take(a.len() as int) =~= a);
    assert(s.skip(a.len() + 1int) =~= b);
}

/// Normalising is: keep the non-empty lines, in order, and replace the first
/// `~` of each by `home`.
pub proof fn lemma_normalize_is_filter_then_expand(lines: Seq<Seq<char>>, home: Seq<char>)
    ensures
        spec_normalize(lines, home) == lines.filter(|l: Seq<char>| l.len() > 0).map_values(
            |l: Seq<char>| replace_first(l, '~', home),
        ),
{
    let f = |l: Seq<char>| spec_normalize_line(l, home);
    let p = |l: Seq<char>| l.len() > 0;
    let g = |l: Seq<char>| replace_first(l, '~', home);
    assert forall|x: Seq<char>| #[trigger] f(x) == if p(x) { Some(g(x)) } else { None::<Seq<char>> } by {}
    crate::seq_facts::lemma_filter_map_as_filter(lines, f, p, g);
}

} // verus!
