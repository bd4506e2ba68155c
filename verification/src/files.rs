//! The text locator: resolves a captured (row, column) span against raw
//! source bytes, and related helpers on file content and file names.
//!
//! Lines are split on the line-feed byte and keep it; bytes after the last
//! line feed belong to no line.  A span within one row keeps the inclusive
//! column range, one byte wider than a half-open slice: that is the
//! engine's reporting convention and is preserved bit for bit.  A span
//! over several rows keeps the start line's tail from the start column,
//! every line strictly between in full, and the end line's head through
//! the end column inclusive.

use vstd::prelude::*;
use vstd::string::*;

use crate::meta::Level;
use crate::meta::keyword;

verus! {

/// A span a capture can be resolved from: zero-based start and end rows and
/// columns, all bounds inclusive.
pub trait WalkInPosition {
    /// The first row of the span.
    spec fn line_start_spec(&self) -> usize;

    /// The last row of the span, inclusive.
    spec fn line_end_spec(&self) -> usize;

    /// The first column of the span.
    spec fn pos_start_spec(&self) -> usize;

    /// The last column of the span, inclusive.
    spec fn pos_end_spec(&self) -> usize;

    fn line_start(&self) -> (r: usize)
        ensures
            r == self.line_start_spec(),
    ;

    fn line_end(&self) -> (r: usize)
        ensures
            r == self.line_end_spec(),
    ;

    fn pos_start(&self) -> (r: usize)
        ensures
            r == self.pos_start_spec(),
    ;

    fn pos_end(&self) -> (r: usize)
        ensures
            r == self.pos_end_spec(),
    ;
}

/// The offset of the first line-feed byte, or the length when there is none.
pub open spec fn index_of_nl(data: Seq<u8>) -> nat
    decreases data.len(),
{
    if data.len() == 0 {
        0
    } else if data[0] == 10u8 {
        0
    } else {
        1 + index_of_nl(data.skip(1))
    }
}

pub proof fn lemma_index_of_nl(data: Seq<u8>)
    ensures
        index_of_nl(data) <= data.len(),
        forall|j: int| 0 <= j < index_of_nl(data) ==> data[j] != 10u8,
        index_of_nl(data) < data.len() ==> data[index_of_nl(data) as int] == 10u8,
    decreases data.len(),
{
    if data.len() == 0 {
    } else if data[0] == 10u8 {
    } else {
        lemma_index_of_nl(data.skip(1));
        assert forall|j: int| 0 <= j < index_of_nl(data) implies data[j] != 10u8 by {
            if j > 0 {
                assert(data.skip(1)[j - 1] == data[j]);
            }
        }
        if index_of_nl(data) < data.len() {
            assert(data.skip(1)[index_of_nl(data) - 1] == data[index_of_nl(data) as int]);
        }
    }
}

/// The lines of the raw bytes: each ends with its line feed; trailing bytes
/// without one belong to no line.
pub open spec fn lines_of(data: Seq<u8>) -> Seq<Seq<u8>>
    decreases data.len(),
{
    let i = index_of_nl(data) as int;
    if i >= data.len() {
        Seq::empty()
    } else {
        seq![data.take(i + 1)] + lines_of(data.skip(i + 1))
    }
}

/// The bytes of one line whose offset lies in `[a, b]`, both ends inclusive;
/// out-of-range bounds yield a truncated or empty result.
pub open spec fn slice_incl(line: Seq<u8>, a: int, b: int) -> Seq<u8> {
    if a < 0 || b < a || a >= line.len() {
        Seq::empty()
    } else if b + 1 <= line.len() {
        line.subrange(a, b + 1)
    } else {
        line.subrange(a, line.len() as int)
    }
}

/// The part of row `r`'s line that a span over rows `[ls, le]` keeps: the
/// start row from the span's first column to line end, the end row from
/// column zero through the span's last column inclusive, rows strictly
/// between in full.  A single-row span keeps the column range `[ps, pe]`,
/// inclusive on both ends.
pub open spec fn row_slice(line: Seq<u8>, r: int, ls: int, le: int, ps: int, pe: int) -> Seq<u8> {
    slice_incl(
        line,
        if r == ls {
            ps
        } else {
            0
        },
        if r == le {
            pe
        } else {
            line.len() - 1
        },
    )
}

/// The concatenated row slices of every row in `[ls, le]`, starting from
/// row `r`.
pub open spec fn locate_from(lines: Seq<Seq<u8>>, r: int, ls: int, le: int, ps: int, pe: int) -> Seq<
    u8,
>
    decreases lines.len() - r,
{
    if r < 0 || r >= lines.len() {
        Seq::empty()
    } else {
        (if ls <= r <= le {
            row_slice(lines[r], r, ls, le, ps, pe)
        } else {
            Seq::empty()
        }) + locate_from(lines, r + 1, ls, le, ps, pe)
    }
}

/// What the locator returns for a span over the raw bytes: for a span
/// within one row, the inclusive column range; for a multi-row span, the
/// trailing slice of the start line from the start column, every line
/// strictly between in full, and the leading slice of the end line through
/// the end column inclusive.
pub open spec fn locate_spec(data: Seq<u8>, ls: int, le: int, ps: int, pe: int) -> Seq<u8> {
    locate_from(lines_of(data), 0, ls, le, ps, pe)
}

/// The bytes after the last line feed: the part of the data on no line.
pub open spec fn residue_of(data: Seq<u8>) -> Seq<u8>
    decreases data.len(),
{
    let i = index_of_nl(data) as int;
    if i >= data.len() {
        data
    } else {
        residue_of(data.skip(i + 1))
    }
}

proof fn lemma_index_of_nl_push(p: Seq<u8>, b: u8)
    ensures
        index_of_nl(p.push(b)) == if index_of_nl(p) < p.len() {
            index_of_nl(p)
        } else if b == 10u8 {
            p.len()
        } else {
            p.len() + 1
        },
    decreases p.len(),
{
    lemma_index_of_nl(p);
    if p.len() == 0 {
        assert(p.push(b)[0] == b);
        if b != 10u8 {
            assert(p.push(b).skip(1) =~= Seq::<u8>::empty());
            assert(index_of_nl(Seq::<u8>::empty()) == 0);
            assert(index_of_nl(p.push(b)) == 1);
        } else {
            assert(index_of_nl(p.push(b)) == 0);
        }
    } else if p[0] == 10u8 {
        assert(p.push(b)[0] == 10u8);
    } else {
        assert(p.push(b)[0] == p[0]);
        assert(p.push(b).skip(1) =~= p.skip(1).push(b));
        lemma_index_of_nl_push(p.skip(1), b);
    }
}

proof fn lemma_lines_push(p: Seq<u8>, b: u8)
    ensures
        b != 10u8 ==> lines_of(p.push(b)) == lines_of(p) && residue_of(p.push(b)) == residue_of(
            p,
        ).push(b),
        b == 10u8 ==> lines_of(p.push(b)) == lines_of(p).push(residue_of(p).push(b)) && residue_of(
            p.push(b),
        ) == Seq::<u8>::empty(),
    decreases p.len(),
{
    lemma_index_of_nl(p);
    lemma_index_of_nl_push(p, b);
    let q = p.push(b);
    let i = index_of_nl(p) as int;
    if i >= p.len() {
        assert(residue_of(p) == p);
        if b == 10u8 {
            assert(index_of_nl(q) == p.len());
            assert(q.take(p.len() as int + 1) =~= q);
            assert(q.skip(p.len() as int + 1) =~= Seq::<u8>::empty());
            assert(index_of_nl(Seq::<u8>::empty()) == 0);
            assert(lines_of(Seq::<u8>::empty()) =~= Seq::<Seq<u8>>::empty());
            assert(residue_of(Seq::<u8>::empty()) =~= Seq::<u8>::empty());
            assert(lines_of(q) == seq![q] + lines_of(Seq::<u8>::empty()));
            assert(lines_of(q) =~= seq![residue_of(p).push(b)]);
            assert(lines_of(p).push(residue_of(p).push(b)) =~= seq![residue_of(p).push(b)]);
            assert(residue_of(q) == residue_of(Seq::<u8>::empty()));
        } else {
            assert(index_of_nl(q) >= q.len());
            assert(residue_of(q) == q);
        }
    } else {
        assert(q.take(i + 1) =~= p.take(i + 1));
        assert(q.skip(i + 1) =~= p.skip(i + 1).push(b));
        lemma_lines_push(p.skip(i + 1), b);
        if b == 10u8 {
            assert(lines_of(q) == seq![p.take(i + 1)] + lines_of(p.skip(i + 1)).push(
                residue_of(p.skip(i + 1)).push(b),
            ));
            assert(seq![p.take(i + 1)] + lines_of(p.skip(i + 1)).push(
                residue_of(p.skip(i + 1)).push(b),
            ) =~= (seq![p.take(i + 1)] + lines_of(p.skip(i + 1))).push(residue_of(p).push(b)));
        }
    }
}

proof fn lemma_slice_incl_take_step(line: Seq<u8>, k: int, a: int, b: int)
    requires
        0 <= k < line.len(),
        0 <= a,
    ensures
        slice_incl(line.take(k + 1), a, b) == if a <= k <= b {
            slice_incl(line.take(k), a, b).push(line[k])
        } else {
            slice_incl(line.take(k), a, b)
        },
{
    if a <= k <= b {
        assert(slice_incl(line.take(k + 1), a, b) =~= slice_incl(line.take(k), a, b).push(
            line[k],
        ));
    } else {
        assert(slice_incl(line.take(k + 1), a, b) =~= slice_incl(line.take(k), a, b));
    }
}

proof fn lemma_locate_from_single(lines: Seq<Seq<u8>>, i: int, r: int, ps: int, pe: int)
    requires
        0 <= i <= lines.len(),
    ensures
        locate_from(lines, i, r, r, ps, pe) == if i <= r < lines.len() {
            slice_incl(lines[r], ps, pe)
        } else {
            Seq::<u8>::empty()
        },
    decreases lines.len() - i,
{
    if i < lines.len() {
        lemma_locate_from_single(lines, i + 1, r, ps, pe);
        if i == r {
            assert(row_slice(lines[r], r, r, r, ps, pe) == slice_incl(lines[r], ps, pe));
            assert(slice_incl(lines[r], ps, pe) + Seq::<u8>::empty() =~= slice_incl(
                lines[r],
                ps,
                pe,
            ));
        } else {
            assert(Seq::<u8>::empty() + locate_from(lines, i + 1, r, r, ps, pe) =~= locate_from(
                lines,
                i + 1,
                r,
                r,
                ps,
                pe,
            ));
        }
    }
}

/// Law: every line of the split data is non-empty and ends with the line
/// feed that closed it.
pub proof fn lemma_lines_end_with_nl(data: Seq<u8>)
    ensures
        forall|i: int|
            0 <= i < lines_of(data).len() ==> (#[trigger] lines_of(data)[i]).len() > 0
                && lines_of(data)[i].last() == 10u8,
    decreases data.len(),
{
    lemma_index_of_nl(data);
    let k = index_of_nl(data) as int;
    if k < data.len() {
        lemma_lines_end_with_nl(data.skip(k + 1));
        assert forall|i: int|
            0 <= i < lines_of(data).len() implies (#[trigger] lines_of(data)[i]).len() > 0
            && lines_of(data)[i].last() == 10u8 by {
            if i == 0 {
                assert(lines_of(data)[0] == data.take(k + 1));
                assert(data.take(k + 1).last() == data[k]);
            } else {
                assert(lines_of(data)[i] == lines_of(data.skip(k + 1))[i - 1]);
            }
        }
    }
}

/// Law: a span within one row resolves to exactly the inclusive column
/// range of that row's line.
pub proof fn lemma_locate_single_line(data: Seq<u8>, r: int, ps: int, pe: int)
    requires
        0 <= r < lines_of(data).len(),
    ensures
        locate_spec(data, r, r, ps, pe) == slice_incl(lines_of(data)[r], ps, pe),
{
    lemma_locate_from_single(lines_of(data), 0, r, ps, pe);
}

/// Law: a span covering one entire row, from column zero to the row's last
/// byte inclusive, resolves to exactly that line, trailing line feed
/// included.
pub proof fn lemma_locate_full_line(data: Seq<u8>, r: int)
    requires
        0 <= r < lines_of(data).len(),
    ensures
        locate_spec(data, r, r, 0, lines_of(data)[r].len() - 1) == lines_of(data)[r],
{
    lemma_locate_single_line(data, r, 0, lines_of(data)[r].len() - 1);
    let line = lines_of(data)[r];
    if line.len() > 0 {
        assert(slice_incl(line, 0, line.len() - 1) =~= line);
    } else {
        assert(slice_incl(line, 0, line.len() - 1) =~= line);
    }
}

/// Resolves a span against raw source bytes.  A span within one row keeps
/// the inclusive column range `[pos_start, pos_end]`; a span over several
/// rows keeps the start line from its start column to line end, every line
/// strictly between in full, and the end line through its end column
/// inclusive.  Out-of-range rows or columns yield a truncated or empty
/// result rather than an error.
pub fn search_in_file_dyn<W: WalkInPosition>(data: &[u8], pos: &W) -> (r: Vec<u8>)
    ensures
        r@ == locate_spec(
            data@,
            pos.line_start_spec() as int,
            pos.line_end_spec() as int,
            pos.pos_start_spec() as int,
            pos.pos_end_spec() as int,
        ),
{
    let mut lines: Vec<Vec<u8>> = Vec::new();
    let mut local_line: Vec<u8> = Vec::new();
    let mut k: usize = 0;
    while k < data.len()
        invariant
            k <= data@.len(),
            lines@.len() == lines_of(data@.take(k as int)).len(),
            forall|i: int|
                0 <= i < lines@.len() ==> lines@[i]@ == lines_of(data@.take(k as int))[i],
            local_line@ == residue_of(data@.take(k as int)),
        decreases data@.len() - k,
    {
        let byte = data[k];
        local_line.push(byte);
        proof {
            assert(data@.take(k + 1) =~= data@.take(k as int).push(data@[k as int]));
            lemma_lines_push(data@.take(k as int), data@[k as int]);
        }
        if byte == 10u8 {
            let mut done: Vec<u8> = Vec::new();
            core::mem::swap(&mut done, &mut local_line);
            lines.push(done);
        }
        k += 1;
    }
    proof {
        assert(data@.take(data@.len() as int) =~= data@);
    }
    let ghost lv = lines_of(data@);
    let ls = pos.line_start();
    let le = pos.line_end();
    let ps = pos.pos_start();
    let pe = pos.pos_end();
    let mut ret: Vec<u8> = Vec::new();
    let mut line_num: usize = 0;
    while line_num < lines.len()
        invariant
            line_num <= lines@.len(),
            lines@.len() == lv.len(),
            forall|i: int| 0 <= i < lines@.len() ==> lines@[i]@ == lv[i],
            ls == pos.line_start_spec(),
            le == pos.line_end_spec(),
            ps == pos.pos_start_spec(),
            pe == pos.pos_end_spec(),
            locate_from(lv, 0, ls as int, le as int, ps as int, pe as int) == ret@ + locate_from(
                lv,
                line_num as int,
                ls as int,
                le as int,
                ps as int,
                pe as int,
            ),
        decreases lines@.len() - line_num,
    {
        if line_num >= ls && line_num <= le {
            let line = &lines[line_num];
            let ghost ret0 = ret@;
            let ghost lo = if line_num == ls {
                ps as int
            } else {
                0int
            };
            let ghost hi = if line_num == le {
                pe as int
            } else {
                line@.len() - 1
            };
            let mut char_num: usize = 0;
            while char_num < line.len()
                invariant
                    char_num <= line@.len(),
                    line@ == lv[line_num as int],
                    0 <= line_num < lv.len(),
                    ls <= line_num <= le,
                    ls == pos.line_start_spec(),
                    le == pos.line_end_spec(),
                    ps == pos.pos_start_spec(),
                    pe == pos.pos_end_spec(),
                    lo == if line_num == ls {
                        ps as int
                    } else {
                        0int
                    },
                    hi == if line_num == le {
                        pe as int
                    } else {
                        line@.len() - 1
                    },
                    ret@ == ret0 + slice_incl(line@.take(char_num as int), lo, hi),
                decreases line@.len() - char_num,
            {
                proof {
                    lemma_slice_incl_take_step(line@, char_num as int, lo, hi);
                }
                if (line_num > ls || char_num >= ps) && (line_num < le || char_num <= pe) {
                    ret.push(line[char_num]);
                }
                char_num += 1;
            }
            proof {
                assert(line@.take(line@.len() as int) =~= line@);
                assert(ret@ == ret0 + row_slice(
                    lv[line_num as int],
                    line_num as int,
                    ls as int,
                    le as int,
                    ps as int,
                    pe as int,
                ));
            }
        }
        line_num += 1;
    }
    ret
}

/// A directory path joined with a file name: a separator is added unless the
/// directory already ends with one or is empty.
pub open spec fn joined_path(dir: Seq<char>, name: Seq<char>) -> Seq<char> {
    if dir.len() == 0 {
        name
    } else if dir.last() == '/' {
        dir + name
    } else {
        dir + "/"@ + name
    }
}

/// The path one level's rendered document is saved under.
pub open spec fn file_name_spec(dir: Seq<char>, level: Level) -> Seq<char> {
    joined_path(dir, keyword(level)) + "."@ + "md"@
}

/// The path of the document for `level`: the level's name plus the format's
/// suffix, inside the save directory.
pub fn form_file_name(dir: &String, arg: &crate::args::Arg, level: &Level) -> (r: String)
    ensures
        r@ == file_name_spec(dir@, *level),
{
    let mut path = dir.clone();
    let len = path.as_str().unicode_len();
    if len > 0 {
        if path.as_str().get_char(len - 1) != '/' {
            path.append("/");
        }
    }
    path.append(level.name());
    path.append(".");
    let suffix = arg.file_suffix();
    path.append(suffix.as_str());
    path
}

/// What `String::from_utf8_lossy` decodes the raw bytes to; a function of
/// the bytes alone.
pub uninterp spec fn lossy_decode(bytes: Seq<u8>) -> Seq<char>;

/// Relies on `String::from_utf8_lossy`: the result depends on the bytes
/// alone, and valid UTF-8 decodes exactly.
#[verifier::external_body]
pub fn utf8_lossy(bytes: &[u8]) -> (r: String)
    ensures
        r@ == lossy_decode(bytes@),
        vstd::utf8::valid_utf8(bytes@) ==> r@ == vstd::utf8::decode_utf8(bytes@),
{
    String::from_utf8_lossy(bytes).into_owned()
}

} // verus!
