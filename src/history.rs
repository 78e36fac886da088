use vstd::prelude::*;
use vstd::string::StrSliceExecFns;
use crate::text::{
    all_digits, append_decimal, blank, find_char, find_char_from, int_decimal, is_blank,
    is_digit, lemma_find_char_at, lemma_find_char_bounds, lemma_nat_decimal,
    lemma_parse_int_decimal, nat_decimal, parse_i32, parse_i32_spec, str_eq,
};

verus! {

/// What a line of the command-line history refers to.
#[derive(Clone, Copy, Debug, PartialEq, Eq, Structural)]
pub enum LinkedItem {
    NoItem,
    ServerId(i32),
    ProjectPoiId(i32),
    ServerPoiId(i32),
}

/// Name of the file, in the configuration directory, that holds the time of
/// the last check for a new version.
pub const UPGRADE_CHECK_FILE: &'static str = "upgrade-check-date";

/// Name of the file, in the configuration directory, that holds the history.
pub const HISTORY_FILE: &'static str = "cli-history";

/// Days reported when no check for a new version was ever recorded.
pub const DAYS_WHEN_NEVER_CHECKED: u64 = 365;

/// A path as the sequence of its components.
pub open spec fn path_view(p: Seq<String>) -> Seq<Seq<char>> {
    p.map_values(|c: String| c@)
}

fn push_component(dir: &Vec<String>, name: &str) -> (r: Vec<String>)
    ensures
        path_view(r@) == path_view(dir@).push(name@),
{
    let mut r: Vec<String> = Vec::new();
    let mut i: usize = 0;
    while i < dir.len()
        invariant
            i <= dir.len(),
            path_view(r@) == path_view(dir@.subrange(0, i as int)),
        decreases dir.len() - i,
    {
        let c = dir[i].clone();
        assert(c@ == dir@[i as int]@);
        let ghost before = r@;
        r.push(c);
        assert(r@ == before.push(c));
        assert(dir@.subrange(0, i + 1) == dir@.subrange(0, i as int).push(dir@[i as int]));
        assert(path_view(r@) =~= path_view(before).push(c@));
        assert(path_view(dir@.subrange(0, i + 1)) =~= path_view(dir@.subrange(0, i as int)).push(
            dir@[i as int]@,
        ));
        i = i + 1;
    }
    assert(dir@.subrange(0, i as int) == dir@);
    r.push(String::from_str(name));
    assert(path_view(r@) =~= path_view(dir@).push(name@));
    r
}

/// The file that records the last check for a new version, in the
/// configuration directory `config_path`.
pub fn upgrade_check_time_path(config_path: &Vec<String>) -> (r: Vec<String>)
    ensures
        path_view(r@) == path_view(config_path@).push(UPGRADE_CHECK_FILE@),
{
    push_component(config_path, UPGRADE_CHECK_FILE)
}

/// The history file, in the configuration directory `config_path`.
pub fn history_file_path(config_path: &Vec<String>) -> (r: Vec<String>)
    ensures
        path_view(r@) == path_view(config_path@).push(HISTORY_FILE@),
{
    push_component(config_path, HISTORY_FILE)
}

/// Whole days since the last check for a new version, from the time now and
/// the recorded time of that check, both in seconds since the epoch; `None`
/// where the recorded time lies in the future.
pub open spec fn days_since_spec(now_secs: u64, previous_secs: Option<u64>) -> Option<u64> {
    match previous_secs {
        None => Some(DAYS_WHEN_NEVER_CHECKED),
        Some(p) => if p <= now_secs {
            Some(((now_secs - p) / 3600 / 24) as u64)
        } else {
            None
        },
    }
}

pub fn upgrade_days_since(now_secs: u64, previous_secs: Option<u64>) -> (r: Option<u64>)
    ensures
        r == days_since_spec(now_secs, previous_secs),
{
    match previous_secs {
        None => Some(DAYS_WHEN_NEVER_CHECKED),
        Some(p) => if p <= now_secs {
            Some((now_secs - p) / 3600 / 24)
        } else {
            None
        },
    }
}

/// A history line is `S;<id>;<text>` (a server), `P;<id>;<text>` (a project
/// point of interest) or `SP;<id>;<text>` (a server point of interest); any
/// other line is plain text linked to nothing.
pub open spec fn parse_history_line_spec(line: Seq<char>) -> (Seq<char>, LinkedItem) {
    let first_sep = find_char(line, 0, ';');
    let second_sep = find_char(line, first_sep + 1, ';');
    if second_sep < line.len() {
        let tag = line.subrange(0, first_sep);
        let rest = line.subrange(second_sep + 1, line.len() as int);
        match parse_i32_spec(line.subrange(first_sep + 1, second_sep)) {
            Some(id) => if tag == "S"@ {
                (rest, LinkedItem::ServerId(id))
            } else if tag == "P"@ {
                (rest, LinkedItem::ProjectPoiId(id))
            } else if tag == "SP"@ {
                (rest, LinkedItem::ServerPoiId(id))
            } else {
                (line, LinkedItem::NoItem)
            },
            None => (line, LinkedItem::NoItem),
        }
    } else {
        (line, LinkedItem::NoItem)
    }
}

pub fn parse_history_line(line: &str) -> (r: (String, LinkedItem))
    ensures
        (r.0@, r.1) == parse_history_line_spec(line@),
{
    let n = line.unicode_len();
    let first_sep = find_char_from(line, 0, ';');
    proof {
        lemma_find_char_bounds(line@, 0, ';');
    }
    if first_sep >= n {
        proof {
            lemma_find_char_bounds(line@, first_sep + 1, ';');
        }
        return (String::from_str(line), LinkedItem::NoItem);
    }
    let second_sep = find_char_from(line, first_sep + 1, ';');
    proof {
        lemma_find_char_bounds(line@, first_sep + 1, ';');
    }
    if second_sep >= n {
        return (String::from_str(line), LinkedItem::NoItem);
    }
    let tag = line.substring_char(0, first_sep);
    let rest = line.substring_char(second_sep + 1, n);
    match parse_i32(line, first_sep + 1, second_sep) {
        Some(id) => {
            if str_eq(tag, "S") {
                (String::from_str(rest), LinkedItem::ServerId(id))
            } else if str_eq(tag, "P") {
                (String::from_str(rest), LinkedItem::ProjectPoiId(id))
            } else if str_eq(tag, "SP") {
                (String::from_str(rest), LinkedItem::ServerPoiId(id))
            } else {
                (String::from_str(line), LinkedItem::NoItem)
            }
        },
        None => (String::from_str(line), LinkedItem::NoItem),
    }
}

/// The history line for `text` linked to `item`: the inverse of
/// [`parse_history_line_spec`].
pub open spec fn serialize_history_line_spec(text: Seq<char>, item: LinkedItem) -> Seq<char> {
    match item {
        LinkedItem::NoItem => text,
        LinkedItem::ServerId(id) => "S;"@ + int_decimal(id as int) + ";"@ + text,
        LinkedItem::ProjectPoiId(id) => "P;"@ + int_decimal(id as int) + ";"@ + text,
        LinkedItem::ServerPoiId(id) => "SP;"@ + int_decimal(id as int) + ";"@ + text,
    }
}

fn tagged_line(tag: &str, id: i32, text: &str) -> (r: String)
    ensures
        r@ == tag@ + int_decimal(id as int) + ";"@ + text@,
{
    let mut s = String::from_str(tag);
    append_decimal(&mut s, id as i64);
    s.append(";");
    s.append(text);
    s
}

pub fn serialize_history_line(line: (&String, &LinkedItem)) -> (r: String)
    ensures
        r@ == serialize_history_line_spec(line.0@, *line.1),
{
    match line.1 {
        LinkedItem::NoItem => line.0.clone(),
        LinkedItem::ServerId(id) => tagged_line("S;", *id, line.0.as_str()),
        LinkedItem::ProjectPoiId(id) => tagged_line("P;", *id, line.0.as_str()),
        LinkedItem::ServerPoiId(id) => tagged_line("SP;", *id, line.0.as_str()),
    }
}

pub open spec fn strings_view(v: Seq<String>) -> Seq<Seq<char>> {
    v.map_values(|s: String| s@)
}

/// Reads the lines of a history file: the text of each line and what it is
/// linked to.
pub fn parse_history(lines: &Vec<String>) -> (r: (Vec<String>, Vec<LinkedItem>))
    ensures
        r.0.len() == lines.len(),
        r.1.len() == lines.len(),
        forall|k: int|
            0 <= k < lines.len() ==> (#[trigger] r.0@[k]@, r.1@[k]) == parse_history_line_spec(
                lines@[k]@,
            ),
{
    let mut strs: Vec<String> = Vec::new();
    let mut items: Vec<LinkedItem> = Vec::new();
    let mut i: usize = 0;
    while i < lines.len()
        invariant
            i <= lines.len(),
            strs.len() == i,
            items.len() == i,
            forall|k: int|
                0 <= k < i ==> (#[trigger] strs@[k]@, items@[k]) == parse_history_line_spec(
                    lines@[k]@,
                ),
        decreases lines.len() - i,
    {
        let (s, item) = parse_history_line(lines[i].as_str());
        strs.push(s);
        items.push(item);
        i = i + 1;
    }
    (strs, items)
}

/// Lines joined with a newline between each two.
pub open spec fn join_lines(lines: Seq<Seq<char>>) -> Seq<char>
    decreases lines.len(),
{
    if lines.len() == 0 {
        Seq::empty()
    } else if lines.len() == 1 {
        lines[0]
    } else {
        join_lines(lines.drop_last()) + "\n"@ + lines.last()
    }
}

/// Length of the history: both sequences are read together, up to the end of
/// the shorter one.
pub open spec fn history_len(strs: Seq<String>, items: Seq<LinkedItem>) -> int {
    if strs.len() < items.len() {
        strs.len() as int
    } else {
        items.len() as int
    }
}

/// Index of the first old entry kept when `limit` lines are kept in all.
/// The latest entry counts toward the limit unless it is blank.
pub open spec fn history_start(n: int, latest: Seq<char>, limit: int) -> int {
    let additional: int = if is_blank(latest) {
        0
    } else {
        1
    };
    if n + additional > limit {
        n + additional - limit
    } else {
        0
    }
}

/// The lines written for the history: the old entries kept, then the latest.
pub open spec fn history_lines(
    strs: Seq<String>,
    items: Seq<LinkedItem>,
    latest: Seq<char>,
    latest_item: LinkedItem,
    limit: int,
) -> Seq<Seq<char>> {
    let n = history_len(strs, items);
    let start = history_start(n, latest, limit);
    Seq::new(
        (n - start) as nat,
        |k: int| serialize_history_line_spec(strs[start + k]@, items[start + k]),
    ).push(serialize_history_line_spec(latest, latest_item))
}

/// Whether the history already ends with the latest entry.
pub open spec fn history_ends_with(
    strs: Seq<String>,
    items: Seq<LinkedItem>,
    latest: Seq<char>,
    latest_item: LinkedItem,
) -> bool {
    let n = history_len(strs, items);
    n > 0 && strs[n - 1]@ == latest && items[n - 1] == latest_item
}

/// What to write to the history file once `latest` was run: `None` where the
/// history already ends with it, else the kept old entries and the latest one,
/// joined by newlines.
pub open spec fn history_contents_spec(
    strs: Seq<String>,
    items: Seq<LinkedItem>,
    latest: Seq<char>,
    latest_item: LinkedItem,
    limit: int,
) -> Option<Seq<char>> {
    if history_ends_with(strs, items, latest, latest_item) {
        None
    } else {
        Some(join_lines(history_lines(strs, items, latest, latest_item, limit)))
    }
}

pub fn history_contents(
    orig_history_strs: &Vec<String>,
    orig_linked_items: &Vec<LinkedItem>,
    latest: (&str, LinkedItem),
    limit: usize,
) -> (r: Option<String>)
    requires
        limit > 0 || is_blank(latest.0@) || history_ends_with(
            orig_history_strs@,
            orig_linked_items@,
            latest.0@,
            latest.1,
        ),
    ensures
        r matches Some(s) ==> history_contents_spec(
            orig_history_strs@,
            orig_linked_items@,
            latest.0@,
            latest.1,
            limit as int,
        ) == Some(s@),
        r is None ==> history_contents_spec(
            orig_history_strs@,
            orig_linked_items@,
            latest.0@,
            latest.1,
            limit as int,
        ) is None,
{
    let ghost strs = orig_history_strs@;
    let ghost items = orig_linked_items@;
    let n = if orig_history_strs.len() < orig_linked_items.len() {
        orig_history_strs.len()
    } else {
        orig_linked_items.len()
    };
    if n > 0 && str_eq(orig_history_strs[n - 1].as_str(), latest.0) && orig_linked_items[n - 1]
        == latest.1 {
        return None;
    }
    let additional: usize = if blank(latest.0) {
        0
    } else {
        1
    };
    let room = limit - additional;
    let start: usize = if n > room {
        n - room
    } else {
        0
    };
    let ghost lines = history_lines(strs, items, latest.0@, latest.1, limit as int);
    let mut out = String::new();
    let mut k = start;
    while k < n
        invariant
            start <= k <= n,
            n == history_len(strs, items),
            start == history_start(n as int, latest.0@, limit as int),
            n <= strs.len(),
            n <= items.len(),
            strs == orig_history_strs@,
            items == orig_linked_items@,
            lines == history_lines(strs, items, latest.0@, latest.1, limit as int),
            out@ == join_lines(lines.subrange(0, k - start)),
        decreases n - k,
    {
        let line = serialize_history_line((&orig_history_strs[k], &orig_linked_items[k]));
        let ghost before = lines.subrange(0, k - start);
        let ghost after = lines.subrange(0, k + 1 - start);
        assert(after.drop_last() == before);
        assert(after.last() == line@);
        if k > start {
            out.append("\n");
        }
        out.append(line.as_str());
        assert(out@ =~= join_lines(after));
        k = k + 1;
    }
    let last = serialize_history_line((&String::from_str(latest.0), &latest.1));
    let ghost before = lines.subrange(0, n - start);
    assert(lines.drop_last() == before);
    if n > start {
        out.append("\n");
    }
    out.append(last.as_str());
    assert(lines.subrange(0, lines.len() as int) == lines);
    assert(out@ =~= join_lines(lines));
    Some(out)
}

proof fn lemma_tagged_line_parses(tag: Seq<char>, text: Seq<char>, id: i32)
    requires
        tag.len() > 0,
        forall|i: int| 0 <= i < tag.len() ==> tag[i] != ';',
    ensures
        ({
            let line = tag + ";"@ + int_decimal(id as int) + ";"@ + text;
            let first_sep = find_char(line, 0, ';');
            let second_sep = find_char(line, first_sep + 1, ';');
            &&& first_sep == tag.len()
            &&& second_sep == tag.len() + 1 + int_decimal(id as int).len()
            &&& line.subrange(0, first_sep) == tag
            &&& line.subrange(first_sep + 1, second_sep) == int_decimal(id as int)
            &&& line.subrange(second_sep + 1, line.len() as int) == text
        }),
{
    reveal_strlit(";");
    let dec = int_decimal(id as int);
    let line = tag + ";"@ + dec + ";"@ + text;
    let t = tag.len() as int;
    let digits = if id < 0 {
        nat_decimal((-id) as nat)
    } else {
        nat_decimal(id as nat)
    };
    lemma_nat_decimal(if id < 0 {
        (-id) as nat
    } else {
        id as nat
    });
    assert(forall|j: int| 0 <= j < dec.len() ==> #[trigger] dec[j] != ';') by {
        assert forall|j: int| 0 <= j < dec.len() implies #[trigger] dec[j] != ';' by {
            if id < 0 {
                if j > 0 {
                    assert(dec[j] == digits[j - 1]);
                    assert(is_digit(digits[j - 1]));
                }
            } else {
                assert(is_digit(digits[j]));
            }
        }
    }
    assert forall|j: int| 0 <= j < t implies line[j] != ';' by {
        assert(line[j] == tag[j]);
    }
    lemma_find_char_at(line, 0, t, ';');
    assert forall|j: int| t + 1 <= j < t + 1 + dec.len() implies line[j] != ';' by {
        assert(line[j] == dec[j - t - 1]);
    }
    lemma_find_char_at(line, t + 1, t + 1 + dec.len(), ';');
    assert(line.subrange(0, t) =~= tag);
    assert(line.subrange(t + 1, t + 1 + dec.len()) =~= dec);
    assert(line.subrange(t + 2 + dec.len(), line.len() as int) =~= text);
}

/// A history line written for `text` and `item` reads back as `text` and
/// `item`, unless `item` is nothing and `text` itself reads as a linked line.
pub proof fn lemma_history_line_round_trip(text: Seq<char>, item: LinkedItem)
    requires
        item != LinkedItem::NoItem || parse_history_line_spec(text).1 == LinkedItem::NoItem,
    ensures
        parse_history_line_spec(serialize_history_line_spec(text, item)) == (text, item),
{
    reveal_strlit("S;");
    reveal_strlit("P;");
    reveal_strlit("SP;");
    reveal_strlit("S");
    reveal_strlit("P");
    reveal_strlit("SP");
    reveal_strlit(";");
    match item {
        LinkedItem::NoItem => {},
        LinkedItem::ServerId(id) => {
            assert("S;"@ =~= "S"@ + ";"@);
            lemma_tagged_line_parses("S"@, text, id);
            lemma_parse_int_decimal(id);
        },
        LinkedItem::ProjectPoiId(id) => {
            assert("P;"@ =~= "P"@ + ";"@);
            lemma_tagged_line_parses("P"@, text, id);
            lemma_parse_int_decimal(id);
        },
        LinkedItem::ServerPoiId(id) => {
            assert("SP;"@ =~= "SP"@ + ";"@);
            lemma_tagged_line_parses("SP"@, text, id);
            lemma_parse_int_decimal(id);
        },
    }
}

} // verus!
