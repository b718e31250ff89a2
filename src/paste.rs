//! Parsing of the text that the in-game scanner window puts on the clipboard.
//!
//! Lines are separated by newlines and fields by tabs; a well-formed line reads
//! `<label>\tCosmic Signature\t<category>\t<name>\t<percent>%\t<distance>`.

use vstd::prelude::*;
use crate::text::{blank, chars_of, is_blank};

verus! {

/// Number of characters at the start of a line that make up a signature's label.
pub const ID_WIDTH: usize = 7;

/// One signature as read from the clipboard, before it is classified.
#[derive(Debug, PartialEq)]
pub struct ClipboardItem {
    pub id: String,
    pub sig_type: String,
    pub sig_name: String,
}

pub struct ClipboardItemView {
    pub id: Seq<char>,
    pub sig_type: Seq<char>,
    pub sig_name: Seq<char>,
}

impl View for ClipboardItem {
    type V = ClipboardItemView;

    open spec fn view(&self) -> ClipboardItemView {
        ClipboardItemView { id: self.id@, sig_type: self.sig_type@, sig_name: self.sig_name@ }
    }
}

pub open spec fn items_view(items: Seq<ClipboardItem>) -> Seq<ClipboardItemView> {
    items.map_values(|c: ClipboardItem| c@)
}

impl ClipboardItem {
    pub fn new(id: &str, sig_type: &str, sig_name: &str) -> (r: Self)
        ensures
            r@ == (ClipboardItemView { id: id@, sig_type: sig_type@, sig_name: sig_name@ }),
    {
        ClipboardItem { id: id.to_owned(), sig_type: sig_type.to_owned(), sig_name: sig_name.to_owned() }
    }
}

/// The pieces of `s` between occurrences of `sep`; there is always at least one.
pub open spec fn split_on(s: Seq<char>, sep: char) -> Seq<Seq<char>>
    decreases s.len(),
{
    if s.len() == 0 {
        seq![Seq::empty()]
    } else {
        let pieces = split_on(s.drop_last(), sep);
        if s.last() == sep {
            pieces.push(Seq::empty())
        } else {
            pieces.update(pieces.len() - 1, pieces.last().push(s.last()))
        }
    }
}

/// The lines of a text: its pieces between newlines, less a final empty one.
pub open spec fn lines_of(text: Seq<char>) -> Seq<Seq<char>> {
    let pieces = split_on(text, '\n');
    if pieces.last().len() == 0 {
        pieces.drop_last()
    } else {
        pieces
    }
}

/// The category that a site field names, without its " Site" suffix.
pub open spec fn site_category(field: Seq<char>) -> Option<Seq<char>> {
    if field == "Gas Site"@ {
        Some("Gas"@)
    } else if field == "Relic Site"@ {
        Some("Relic"@)
    } else if field == "Data Site"@ {
        Some("Data"@)
    } else if field == "Combat Site"@ {
        Some("Combat"@)
    } else {
        None
    }
}

/// The label at the start of a line.
pub open spec fn label_of(line: Seq<char>) -> Seq<char> {
    if line.len() <= ID_WIDTH {
        line
    } else {
        line.take(ID_WIDTH as int)
    }
}

/// What one line yields: nothing when it has fewer than three tab-separated
/// fields; else its label with the category and name that its third field
/// (and, for a site, its fourth) gives.
pub open spec fn item_of_line(line: Seq<char>) -> Option<ClipboardItemView> {
    let fields = split_on(line, '\t');
    if fields.len() < 3 {
        None
    } else {
        let id = label_of(line);
        if fields[2] == "Wormhole"@ {
            Some(ClipboardItemView { id, sig_type: "Wormhole"@, sig_name: Seq::empty() })
        } else {
            match site_category(fields[2]) {
                Some(c) => Some(
                    ClipboardItemView {
                        id,
                        sig_type: c,
                        sig_name: if fields.len() > 3 {
                            fields[3]
                        } else {
                            Seq::empty()
                        },
                    },
                ),
                None => Some(
                    ClipboardItemView { id, sig_type: Seq::empty(), sig_name: Seq::empty() },
                ),
            }
        }
    }
}

pub open spec fn items_of_lines(lines: Seq<Seq<char>>) -> Seq<ClipboardItemView>
    decreases lines.len(),
{
    if lines.len() == 0 {
        Seq::empty()
    } else {
        let earlier = items_of_lines(lines.drop_last());
        match item_of_line(lines.last()) {
            Some(item) => earlier.push(item),
            None => earlier,
        }
    }
}

/// Everything that a pasted text yields, in the order of its lines.
pub open spec fn parse_spec(text: Seq<char>) -> Seq<ClipboardItemView> {
    if is_blank(text) {
        Seq::empty()
    } else {
        items_of_lines(lines_of(text))
    }
}

pub proof fn lemma_split_on_len(s: Seq<char>, sep: char)
    ensures
        split_on(s, sep).len() >= 1,
    decreases s.len(),
{
    if s.len() > 0 {
        lemma_split_on_len(s.drop_last(), sep);
    }
}

/// The bounds, within `s`, of the pieces of `s[lo..hi]` between occurrences of `sep`.
fn split_ranges(s: &Vec<char>, lo: usize, hi: usize, sep: char) -> (r: Vec<(usize, usize)>)
    requires
        lo <= hi <= s.len(),
    ensures
        r.len() == split_on(s@.subrange(lo as int, hi as int), sep).len(),
        forall|k: int|
            0 <= k < r.len() ==> lo <= #[trigger] r[k].0 <= r[k].1 <= hi && s@.subrange(
                r[k].0 as int,
                r[k].1 as int,
            ) == split_on(s@.subrange(lo as int, hi as int), sep)[k],
{
    let mut pieces: Vec<(usize, usize)> = Vec::new();
    let mut start: usize = lo;
    let mut i: usize = lo;
    assert(s@.subrange(lo as int, lo as int) =~= Seq::<char>::empty());
    while i < hi
        invariant
            lo <= start <= i <= hi <= s.len(),
            split_on(s@.subrange(lo as int, i as int), sep).len() == pieces.len() + 1,
            forall|k: int|
                0 <= k < pieces.len() ==> lo <= #[trigger] pieces[k].0 <= pieces[k].1 <= i
                    && s@.subrange(pieces[k].0 as int, pieces[k].1 as int) == split_on(
                    s@.subrange(lo as int, i as int),
                    sep,
                )[k],
            s@.subrange(start as int, i as int) == split_on(
                s@.subrange(lo as int, i as int),
                sep,
            ).last(),
        decreases hi - i,
    {
        let ghost before = split_on(s@.subrange(lo as int, i as int), sep);
        assert(s@.subrange(lo as int, i + 1).drop_last() =~= s@.subrange(lo as int, i as int));
        if s[i] == sep {
            pieces.push((start, i));
            start = i + 1;
            assert(s@.subrange(start as int, i + 1) =~= Seq::<char>::empty());
        } else {
            assert(s@.subrange(start as int, i + 1) =~= s@.subrange(start as int, i as int).push(
                s[i as int],
            ));
        }
        i = i + 1;
    }
    let ghost done = pieces@;
    let ghost whole = split_on(s@.subrange(lo as int, hi as int), sep);
    pieces.push((start, hi));
    assert forall|k: int| 0 <= k < pieces.len() implies lo <= #[trigger] pieces[k].0 <= pieces[k].1
        <= hi && s@.subrange(pieces[k].0 as int, pieces[k].1 as int) == whole[k] by {
        if k < done.len() {
            assert(pieces[k] == done[k]);
        } else {
            assert(pieces[k] == (start, hi));
        }
    }
    pieces
}

/// Whether `s[lo..hi]` spells `lit`.
fn spells(s: &Vec<char>, lo: usize, hi: usize, lit: &str) -> (r: bool)
    requires
        lo <= hi <= s.len(),
    ensures
        r == (s@.subrange(lo as int, hi as int) == lit@),
{
    let n = lit.unicode_len();
    if hi - lo != n {
        return false;
    }
    let mut k: usize = 0;
    while k < n
        invariant
            k <= n == hi - lo,
            lo <= hi <= s.len(),
            n == lit@.len(),
            forall|j: int| 0 <= j < k ==> s@[lo + j] == lit@[j],
        decreases n - k,
    {
        if s[lo + k] != lit.get_char(k) {
            return false;
        }
        k = k + 1;
    }
    assert(s@.subrange(lo as int, hi as int) =~= lit@);
    true
}

/// The category that `s[lo..hi]` names as a site, as `site_category` gives it.
fn site_category_of(s: &Vec<char>, lo: usize, hi: usize) -> (r: Option<&'static str>)
    requires
        lo <= hi <= s.len(),
    ensures
        match r {
            Some(c) => site_category(s@.subrange(lo as int, hi as int)) == Some(c@),
            None => site_category(s@.subrange(lo as int, hi as int)) is None,
        },
{
    if spells(s, lo, hi, "Gas Site") {
        Some("Gas")
    } else if spells(s, lo, hi, "Relic Site") {
        Some("Relic")
    } else if spells(s, lo, hi, "Data Site") {
        Some("Data")
    } else if spells(s, lo, hi, "Combat Site") {
        Some("Combat")
    } else {
        None
    }
}

/// The item that the line `s[a..b]` yields.
fn line_item(text: &str, s: &Vec<char>, a: usize, b: usize) -> (r: Option<ClipboardItem>)
    requires
        a <= b <= s.len(),
        s@ == text@,
    ensures
        match r {
            Some(item) => item_of_line(s@.subrange(a as int, b as int)) == Some(item@),
            None => item_of_line(s@.subrange(a as int, b as int)) is None,
        },
{
    let ghost line = s@.subrange(a as int, b as int);
    let fields = split_ranges(s, a, b, '\t');
    if fields.len() < 3 {
        return None;
    }
    let end = if b - a <= ID_WIDTH {
        b
    } else {
        a + ID_WIDTH
    };
    let id = text.substring_char(a, end).to_owned();
    assert(id@ =~= label_of(line));
    let (f0, f1) = fields[2];
    if spells(s, f0, f1, "Wormhole") {
        let item = ClipboardItem { id, sig_type: "Wormhole".to_owned(), sig_name: String::new() };
        return Some(item);
    }
    match site_category_of(s, f0, f1) {
        Some(c) => {
            let name = if fields.len() > 3 {
                let (g0, g1) = fields[3];
                text.substring_char(g0, g1).to_owned()
            } else {
                String::new()
            };
            Some(ClipboardItem { id, sig_type: c.to_owned(), sig_name: name })
        },
        None => Some(ClipboardItem { id, sig_type: String::new(), sig_name: String::new() }),
    }
}

/// Reads every signature line of a pasted text, in order. Blank text yields
/// nothing; a line with fewer than three tab-separated fields is skipped.
pub fn parse_paste(text: &str) -> (r: Vec<ClipboardItem>)
    ensures
        items_view(r@) == parse_spec(text@),
{
    let s = chars_of(text);
    if blank(&s) {
        return Vec::new();
    }
    let lines = split_ranges(&s, 0, s.len(), '\n');
    assert(s@.subrange(0, s@.len() as int) =~= s@);
    proof {
        lemma_split_on_len(s@, '\n');
    }
    let ghost ls = lines_of(text@);
    assert forall|j: int| 0 <= j < lines.len() implies #[trigger] lines[j].0 <= lines[j].1 <= s.len() by {
        assert(0 <= lines[j].0 <= lines[j].1 <= s.len());
    }
    let mut count = lines.len();
    let (la, lb) = lines[count - 1];
    if la == lb {
        count = count - 1;
    }
    assert(ls.len() == count);
    assert(forall|k: int| 0 <= k < count ==> ls[k] == #[trigger] s@.subrange(lines[k].0 as int, lines[k].1 as int));
    let mut findings: Vec<ClipboardItem> = Vec::new();
    let mut k: usize = 0;
    assert(ls.take(0) =~= Seq::<Seq<char>>::empty());
    while k < count
        invariant
            k <= count == ls.len() <= lines.len(),
            s@ == text@,
            forall|j: int| 0 <= j < lines.len() ==> #[trigger] lines[j].0 <= lines[j].1 <= s.len(),
            forall|j: int| 0 <= j < count ==> ls[j] == #[trigger] s@.subrange(lines[j].0 as int, lines[j].1 as int),
            items_view(findings@) == items_of_lines(ls.take(k as int)),
        decreases count - k,
    {
        let (a, b) = lines[k];
        assert(ls.take(k + 1).drop_last() =~= ls.take(k as int));
        match line_item(text, &s, a, b) {
            Some(item) => {
                findings.push(item);
                assert(items_view(findings@) =~= items_of_lines(ls.take(k + 1)));
            },
            None => {},
        }
        k = k + 1;
    }
    assert(ls.take(count as int) =~= ls);
    findings
}

} // verus!
