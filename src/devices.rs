use vstd::prelude::*;

verus! {

/// What `str::trim` makes of a text.
pub uninterp spec fn trim_of(s: Seq<char>) -> Seq<char>;

/// Relies on `str::trim`: the text without its leading and trailing white space.
#[verifier::external_body]
fn trim<'a>(s: &'a str) -> (r: &'a str)
    ensures
        r@ == trim_of(s@),
{
    s.trim()
}

/// The pieces of `s` between newlines, as splitting on `'\n'` gives them: a
/// text without newline is one piece, and a trailing newline ends in an empty one.
pub open spec fn lines_of(s: Seq<char>) -> Seq<Seq<char>>
    decreases s.len(),
{
    if s.len() == 0 {
        seq![Seq::empty()]
    } else {
        let prev = lines_of(s.drop_last());
        if s.last() == '\n' {
            prev.push(Seq::empty())
        } else {
            prev.update(prev.len() - 1, prev.last().push(s.last()))
        }
    }
}

/// The directory that holds the input device files.
pub open spec fn input_dir() -> Seq<char> {
    "/dev/input/"@
}

/// The device file of each line of `text`, in order; none for an empty text.
pub fn paths_from_lines(text: &str) -> (r: Vec<String>)
    ensures
        text@.len() == 0 ==> r@.len() == 0,
        text@.len() > 0 ==> r@.len() == lines_of(text@).len(),
        text@.len() > 0 ==> forall|k: int|
            0 <= k < r@.len() ==> #[trigger] r@[k]@ == input_dir() + lines_of(text@)[k],
{
    let n = text.unicode_len();
    let mut r: Vec<String> = Vec::new();
    if n == 0 {
        return r;
    }
    let mut start: usize = 0;
    let mut i: usize = 0;
    while i < n
        invariant
            n == text@.len(),
            start <= i <= n,
            lines_of(text@.take(i as int)).len() == r@.len() + 1,
            forall|k: int|
                0 <= k < r@.len() ==> #[trigger] r@[k]@ == input_dir() + lines_of(
                    text@.take(i as int),
                )[k],
            lines_of(text@.take(i as int)).last() == text@.subrange(start as int, i as int),
        decreases n - i,
    {
        let c = text.get_char(i);
        let ghost before = text@.take(i as int);
        assert(text@.take(i + 1).drop_last() =~= before);
        if c == '\n' {
            let mut path = String::from_str("/dev/input/");
            path.append(text.substring_char(start, i));
            r.push(path);
            start = i + 1;
            assert(text@.subrange(start as int, i + 1) =~= Seq::<char>::empty());
        } else {
            assert(text@.subrange(start as int, i + 1) =~= text@.subrange(
                start as int,
                i as int,
            ).push(c));
        }
        i = i + 1;
    }
    let mut path = String::from_str("/dev/input/");
    path.append(text.substring_char(start, n));
    r.push(path);
    assert(text@.take(n as int) =~= text@);
    r
}

/// The device files named by the output of the keyboard detection: one per
/// line of the output with surrounding white space removed, and none where
/// nothing but white space was detected.
pub fn device_paths(output: &str) -> (r: Vec<String>)
    ensures
        trim_of(output@).len() == 0 ==> r@.len() == 0,
        trim_of(output@).len() > 0 ==> r@.len() == lines_of(trim_of(output@)).len(),
        trim_of(output@).len() > 0 ==> forall|k: int|
            0 <= k < r@.len() ==> #[trigger] r@[k]@ == input_dir() + lines_of(trim_of(output@))[k],
{
    paths_from_lines(trim(output))
}

} // verus!
