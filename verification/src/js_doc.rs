//! Documentation comments: a description followed by tags.

use vstd::prelude::*;
use vstd::string::StringExecFns;
use crate::ast::ParsedSource;

verus! {

/// One tag of a documentation comment.
#[derive(Debug, PartialEq, Eq)]
pub enum JsDocTag {
    /// `@param name text`
    Param { name: String, doc: Option<String> },
    /// `@return text` or `@returns text`
    Return { doc: Option<String> },
    /// `@deprecated text`
    Deprecated { doc: Option<String> },
    /// `@example text`
    Example { doc: Option<String> },
    /// Any other tag, kept as written: the tag's name and the raw text after it.
    Unsupported { name: String, value: String },
}

/// The mathematical value of a [`JsDocTag`].
pub ghost enum JsDocTagView {
    Param { name: Seq<char>, doc: Option<Seq<char>> },
    Return { doc: Option<Seq<char>> },
    Deprecated { doc: Option<Seq<char>> },
    Example { doc: Option<Seq<char>> },
    Unsupported { name: Seq<char>, value: Seq<char> },
}

impl DeepView for JsDocTag {
    type V = JsDocTagView;

    open spec fn deep_view(&self) -> JsDocTagView {
        match self {
            JsDocTag::Param { name, doc } => JsDocTagView::Param {
                name: name@,
                doc: doc.deep_view(),
            },
            JsDocTag::Return { doc } => JsDocTagView::Return { doc: doc.deep_view() },
            JsDocTag::Deprecated { doc } => JsDocTagView::Deprecated { doc: doc.deep_view() },
            JsDocTag::Example { doc } => JsDocTagView::Example { doc: doc.deep_view() },
            JsDocTag::Unsupported { name, value } => JsDocTagView::Unsupported {
                name: name@,
                value: value@,
            },
        }
    }
}

impl Clone for JsDocTag {
    fn clone(&self) -> (r: Self)
        ensures
            r.deep_view() == self.deep_view(),
    {
        match self {
            JsDocTag::Param { name, doc } => JsDocTag::Param {
                name: name.clone(),
                doc: doc.clone(),
            },
            JsDocTag::Return { doc } => JsDocTag::Return { doc: doc.clone() },
            JsDocTag::Deprecated { doc } => JsDocTag::Deprecated { doc: doc.clone() },
            JsDocTag::Example { doc } => JsDocTag::Example { doc: doc.clone() },
            JsDocTag::Unsupported { name, value } => JsDocTag::Unsupported {
                name: name.clone(),
                value: value.clone(),
            },
        }
    }
}

/// A documentation comment: the description, then the tags in source order.
#[derive(Debug, PartialEq, Eq)]
pub struct JsDoc {
    pub doc: Option<String>,
    pub tags: Vec<JsDocTag>,
}

/// The mathematical value of a [`JsDoc`].
pub ghost struct JsDocView {
    pub doc: Option<Seq<char>>,
    pub tags: Seq<JsDocTagView>,
}

impl DeepView for JsDoc {
    type V = JsDocView;

    open spec fn deep_view(&self) -> JsDocView {
        JsDocView { doc: self.doc.deep_view(), tags: self.tags.deep_view() }
    }
}

impl Clone for JsDoc {
    fn clone(&self) -> (r: Self)
        ensures
            r.deep_view() == self.deep_view(),
    {
        let r = JsDoc { doc: self.doc.clone(), tags: self.tags.clone() };
        assert(r.tags.deep_view() =~= self.tags.deep_view());
        r
    }
}

/// Whitespace within a line.
pub open spec fn is_blank(c: char) -> bool {
    c == ' ' || c == '\t' || c == '\r'
}

/// Whitespace, line breaks included.
pub open spec fn is_space(c: char) -> bool {
    is_blank(c) || c == '\n'
}

/// Where the run of whitespace that ends just before `end` begins.
pub open spec fn gap_start(text: Seq<char>, end: int) -> int
    decreases end,
{
    if 0 < end <= text.len() && is_space(text[end - 1]) {
        gap_start(text, end - 1)
    } else {
        end
    }
}

/// The number of line breaks in `text` from `from` up to `to`.
pub open spec fn line_breaks(text: Seq<char>, from: int, to: int) -> nat
    decreases to - from,
{
    if from >= to {
        0
    } else {
        line_breaks(text, from, to - 1) + if text[to - 1] == '\n' {
            1nat
        } else {
            0nat
        }
    }
}

/// The position of the last `/*` that begins at or before `at`.
pub open spec fn comment_open(text: Seq<char>, at: int) -> Option<int>
    decreases at + 1,
{
    if at < 0 {
        None
    } else if at + 1 < text.len() && text[at] == '/' && text[at + 1] == '*' {
        Some(at)
    } else {
        comment_open(text, at - 1)
    }
}

/// The part of `text` that holds the body of the documentation comment of the
/// syntax starting at `start`: what stands between `/**` and `*/`.
///
/// The comment must end where the whitespace before `start` begins, and that
/// whitespace may hold one line break at most: a blank line parts a comment
/// from what follows. The comment begins at the last `/*` before its end, and
/// counts only if a further `*` follows there.
pub open spec fn doc_comment_range(text: Seq<char>, start: int) -> Option<(int, int)> {
    if 0 <= start <= text.len() {
        let end = gap_start(text, start);
        if end >= 2 && text[end - 2] == '*' && text[end - 1] == '/' && line_breaks(
            text,
            end,
            start,
        ) <= 1 {
            match comment_open(text, end - 4) {
                Some(open) => if open + 3 <= end - 2 && text[open + 2] == '*' {
                    Some((open + 3, end - 2))
                } else {
                    None
                },
                None => None,
            }
        } else {
            None
        }
    } else {
        None
    }
}

/// Whether `c` is whitespace within a line.
fn blank(c: char) -> (b: bool)
    ensures
        b == is_blank(c),
{
    c == ' ' || c == '\t' || c == '\r'
}

/// Finds the body of the documentation comment of the syntax starting at
/// `start`.
pub fn find_doc_comment(text: &Vec<char>, start: usize) -> (range: Option<(usize, usize)>)
    ensures
        match range {
            Some((from, to)) => from <= to <= text@.len() && doc_comment_range(
                text@,
                start as int,
            ) == Some((from as int, to as int)),
            None => doc_comment_range(text@, start as int) is None,
        },
{
    if start > text.len() {
        return None;
    }
    let mut end: usize = start;
    let mut breaks: usize = 0;
    while end > 0 && (blank(text[end - 1]) || text[end - 1] == '\n')
        invariant
            end <= start <= text@.len(),
            gap_start(text@, start as int) == gap_start(text@, end as int),
            breaks == line_breaks(text@, end as int, start as int),
            breaks <= start - end,
        decreases end,
    {
        proof {
            lemma_line_breaks_front(text@, end as int - 1, start as int);
        }
        if text[end - 1] == '\n' {
            breaks += 1;
        }
        end -= 1;
    }
    if end < 2 || text[end - 2] != '*' || text[end - 1] != '/' || breaks > 1 {
        return None;
    }
    if end < 4 {
        return None;
    }
    let mut at: usize = end - 4;
    loop
        invariant
            at + 4 <= end <= start <= text@.len(),
            end == gap_start(text@, start as int),
            text@[end - 2] == '*',
            text@[end - 1] == '/',
            line_breaks(text@, end as int, start as int) <= 1,
            comment_open(text@, end as int - 4) == comment_open(text@, at as int),
        decreases at,
    {
        if text[at] == '/' && text[at + 1] == '*' {
            if at + 3 <= end - 2 && text[at + 2] == '*' {
                return Some((at + 3, end - 2));
            }
            return None;
        }
        if at == 0 {
            assert(comment_open(text@, -1) is None);
            return None;
        }
        at -= 1;
    }
}

/// Counting line breaks from one position earlier adds the break, if any,
/// that stands there.
pub proof fn lemma_line_breaks_front(text: Seq<char>, from: int, to: int)
    requires
        0 <= from < to <= text.len(),
    ensures
        line_breaks(text, from, to) == line_breaks(text, from + 1, to) + if text[from] == '\n' {
            1nat
        } else {
            0nat
        },
    decreases to - from,
{
    if from + 1 < to {
        lemma_line_breaks_front(text, from, to - 1);
    } else {
        assert(line_breaks(text, from, to - 1) == 0);
        assert(line_breaks(text, from + 1, to) == 0);
    }
}

/// The number of elements at the front of `s` that do not meet `p`: the index
/// of the first that meets it, or the length of `s`.
pub open spec fn first_where<T>(s: Seq<T>, p: spec_fn(T) -> bool) -> int
    decreases s.len(),
{
    if s.len() == 0 || p(s[0]) {
        0
    } else {
        1 + first_where(s.skip(1), p)
    }
}

/// `first_where` is the one index before which nothing meets `p` and at which
/// something does, or `s` ends.
pub proof fn lemma_first_where<T>(s: Seq<T>, p: spec_fn(T) -> bool, i: int)
    requires
        0 <= i <= s.len(),
        forall|j: int| 0 <= j < i ==> !p(s[j]),
        i == s.len() || p(s[i]),
    ensures
        first_where(s, p) == i,
    decreases i,
{
    if i > 0 {
        lemma_first_where(s.skip(1), p, i - 1);
    }
}

/// `first_where` is an index into `s`, or its length.
pub proof fn lemma_first_where_bounds<T>(s: Seq<T>, p: spec_fn(T) -> bool)
    ensures
        0 <= first_where(s, p) <= s.len(),
    decreases s.len(),
{
    if !(s.len() == 0 || p(s[0])) {
        lemma_first_where_bounds(s.skip(1), p);
    }
}

/// The length of `s` without the elements at its end that meet `p`.
pub open spec fn kept_len<T>(s: Seq<T>, p: spec_fn(T) -> bool) -> int
    decreases s.len(),
{
    if s.len() > 0 && p(s.last()) {
        kept_len(s.drop_last(), p)
    } else {
        s.len() as int
    }
}

/// `kept_len` is the one length from which on everything meets `p` and before
/// which something does not, or `s` begins.
pub proof fn lemma_kept_len<T>(s: Seq<T>, p: spec_fn(T) -> bool, n: int)
    requires
        0 <= n <= s.len(),
        forall|j: int| n <= j < s.len() ==> p(s[j]),
        n == 0 || !p(s[n - 1]),
    ensures
        kept_len(s, p) == n,
    decreases s.len(),
{
    if n < s.len() {
        lemma_kept_len(s.drop_last(), p, n);
    }
}

/// The test "is whitespace within a line".
pub open spec fn blank_char() -> spec_fn(char) -> bool {
    |c: char| is_blank(c)
}

/// The test "is not whitespace within a line".
pub open spec fn solid_char() -> spec_fn(char) -> bool {
    |c: char| !is_blank(c)
}

/// `s` without the whitespace at its front.
pub open spec fn trim_start(s: Seq<char>) -> Seq<char> {
    s.skip(first_where(s, solid_char()))
}

/// `s` without the whitespace at its end.
pub open spec fn trim_end(s: Seq<char>) -> Seq<char> {
    s.take(kept_len(s, blank_char()))
}

/// `s` without its first character, where that is `c`.
pub open spec fn without_prefix(s: Seq<char>, c: char) -> Seq<char> {
    if s.len() > 0 && s[0] == c {
        s.skip(1)
    } else {
        s
    }
}

/// One line of a comment's body without its decoration: the whitespace before
/// it, a leading `*`, one space after that, and the whitespace at its end.
pub open spec fn clean_line(line: Seq<char>) -> Seq<char> {
    trim_end(without_prefix(without_prefix(trim_start(line), '*'), ' '))
}

/// The lines of `s`: what stands between its line breaks. A text without line
/// break is one line.
pub open spec fn split_lines(s: Seq<char>) -> Seq<Seq<char>>
    decreases s.len(),
{
    if s.len() == 0 {
        seq![Seq::empty()]
    } else {
        let front = split_lines(s.drop_last());
        if s.last() == '\n' {
            front.push(Seq::empty())
        } else {
            front.drop_last().push(front.last().push(s.last()))
        }
    }
}

/// A text always has a line.
pub proof fn lemma_split_lines_len(s: Seq<char>)
    ensures
        split_lines(s).len() >= 1,
    decreases s.len(),
{
    if s.len() > 0 {
        lemma_split_lines_len(s.drop_last());
    }
}

/// The cleaned lines of a comment's body.
pub open spec fn clean_lines(body: Seq<char>) -> Seq<Seq<char>> {
    split_lines(body).map_values(|line: Seq<char>| clean_line(line))
}

/// Copies the characters of `v` from `from` up to `to`.
fn copy_range(v: &Vec<char>, from: usize, to: usize) -> (out: Vec<char>)
    requires
        from <= to <= v@.len(),
    ensures
        out@ == v@.subrange(from as int, to as int),
{
    let mut out: Vec<char> = Vec::new();
    let mut i: usize = from;
    while i < to
        invariant
            from <= i <= to <= v@.len(),
            out@ =~= v@.subrange(from as int, i as int),
        decreases to - i,
    {
        out.push(v[i]);
        i += 1;
    }
    out
}

/// The number of characters at the front of `v`, counted from `from`, that
/// are whitespace within a line.
fn skip_blanks(v: &Vec<char>, from: usize) -> (at: usize)
    requires
        from <= v@.len(),
    ensures
        from <= at <= v@.len(),
        at - from == first_where(v@.skip(from as int), solid_char()),
{
    let mut at: usize = from;
    while at < v.len() && blank(v[at])
        invariant
            from <= at <= v@.len(),
            forall|j: int| from <= j < at ==> is_blank(v@[j]),
        decreases v@.len() - at,
    {
        at += 1;
    }
    proof {
        lemma_first_where(v@.skip(from as int), solid_char(), at - from);
    }
    at
}

/// The length of the word at the front of `v`, counted from `from`: the
/// characters up to the first whitespace.
fn skip_word(v: &Vec<char>, from: usize) -> (at: usize)
    requires
        from <= v@.len(),
    ensures
        from <= at <= v@.len(),
        at - from == first_where(v@.skip(from as int), blank_char()),
{
    let mut at: usize = from;
    while at < v.len() && !blank(v[at])
        invariant
            from <= at <= v@.len(),
            forall|j: int| from <= j < at ==> !is_blank(v@[j]),
        decreases v@.len() - at,
    {
        at += 1;
    }
    proof {
        lemma_first_where(v@.skip(from as int), blank_char(), at - from);
    }
    at
}

/// Skipping one character more from `s.skip(k)`, where that character is
/// `c`, is `s.skip(k + 1)`; else nothing is skipped.
pub proof fn lemma_without_prefix(s: Seq<char>, k: int, c: char)
    requires
        0 <= k <= s.len(),
    ensures
        without_prefix(s.skip(k), c) == if k < s.len() && s[k] == c {
            s.skip(k + 1)
        } else {
            s.skip(k)
        },
{
    if k < s.len() && s[k] == c {
        assert(s.skip(k).skip(1) =~= s.skip(k + 1));
    }
}

/// What is left of `s.skip(from)` without the whitespace at its end is the
/// part of `s` from `from` up to `to`, where `to` is where that whitespace
/// begins.
pub proof fn lemma_trim_end(s: Seq<char>, from: int, to: int)
    requires
        0 <= from <= to <= s.len(),
        forall|j: int| to <= j < s.len() ==> is_blank(s[j]),
        to == from || !is_blank(s[to - 1]),
    ensures
        trim_end(s.skip(from)) == s.subrange(from, to),
{
    let tail = s.skip(from);
    lemma_kept_len(tail, blank_char(), to - from);
    assert(tail.take(to - from) =~= s.subrange(from, to));
}

/// Removes the decoration of one line of a comment's body.
fn cleaned(line: &Vec<char>) -> (out: Vec<char>)
    ensures
        out@ == clean_line(line@),
{
    let after_blanks = skip_blanks(line, 0);
    assert(trim_start(line@) == line@.skip(after_blanks as int)) by {
        assert(line@.skip(0) =~= line@);
    }
    let after_star = if after_blanks < line.len() && line[after_blanks] == '*' {
        after_blanks + 1
    } else {
        after_blanks
    };
    proof {
        lemma_without_prefix(line@, after_blanks as int, '*');
    }
    let from = if after_star < line.len() && line[after_star] == ' ' {
        after_star + 1
    } else {
        after_star
    };
    proof {
        lemma_without_prefix(line@, after_star as int, ' ');
    }
    let mut to: usize = line.len();
    while to > from && blank(line[to - 1])
        invariant
            from <= to <= line@.len(),
            forall|j: int| to <= j < line@.len() ==> is_blank(line@[j]),
        decreases to,
    {
        to -= 1;
    }
    proof {
        lemma_trim_end(line@, from as int, to as int);
    }
    copy_range(line, from, to)
}

/// Splits the part of `text` from `from` up to `to` into lines and cleans
/// each.
fn cleaned_lines(text: &Vec<char>, from: usize, to: usize) -> (lines: Vec<Vec<char>>)
    requires
        from <= to <= text@.len(),
    ensures
        lines.deep_view() == clean_lines(text@.subrange(from as int, to as int)),
{
    let ghost body = text@.subrange(from as int, to as int);
    let mut lines: Vec<Vec<char>> = Vec::new();
    let mut current: Vec<char> = Vec::new();
    let mut i: usize = from;
    assert(body.take(0) =~= Seq::empty());
    assert(lines.deep_view() =~= Seq::empty());
    assert(split_lines(Seq::<char>::empty()).drop_last() =~= Seq::empty());
    while i < to
        invariant
            from <= i <= to <= text@.len(),
            body == text@.subrange(from as int, to as int),
            split_lines(body.take(i - from)).len() >= 1,
            current@ == split_lines(body.take(i - from)).last(),
            lines.deep_view() == split_lines(body.take(i - from)).drop_last().map_values(
                |line: Seq<char>| clean_line(line),
            ),
        decreases to - i,
    {
        let ghost before = split_lines(body.take(i - from));
        let ghost upto = body.take(i - from + 1);
        proof {
            assert(upto.drop_last() =~= body.take(i - from));
            assert(upto.last() == text@[i as int]);
            lemma_split_lines_len(upto);
        }
        if text[i] == '\n' {
            let ghost so_far = lines.deep_view();
            let line = cleaned(&current);
            lines.push(line);
            current = Vec::new();
            proof {
                assert(line.deep_view() =~= line@);
                assert(lines.deep_view() =~= so_far.push(line@));
                assert(split_lines(upto) == before.push(Seq::empty()));
                assert(split_lines(upto).drop_last() =~= before);
                assert(before =~= before.drop_last().push(before.last()));
                assert(lines.deep_view() =~= split_lines(upto).drop_last().map_values(
                    |line: Seq<char>| clean_line(line),
                ));
            }
        } else {
            current.push(text[i]);
            proof {
                assert(split_lines(upto) == before.drop_last().push(
                    before.last().push(text@[i as int]),
                ));
                assert(split_lines(upto).drop_last() =~= before.drop_last());
            }
        }
        i += 1;
    }
    let ghost all = split_lines(body);
    let ghost so_far = lines.deep_view();
    assert(body.take(to - from) =~= body);
    let line = cleaned(&current);
    lines.push(line);
    proof {
        assert(line.deep_view() =~= line@);
        assert(lines.deep_view() =~= so_far.push(line@));
        assert(all =~= all.drop_last().push(all.last()));
        assert(lines.deep_view() =~= all.map_values(|line: Seq<char>| clean_line(line)));
    }
    lines
}

/// The test "is an empty line".
pub open spec fn empty_line() -> spec_fn(Seq<char>) -> bool {
    |line: Seq<char>| line.len() == 0
}

/// The test "is not an empty line".
pub open spec fn full_line() -> spec_fn(Seq<char>) -> bool {
    |line: Seq<char>| line.len() > 0
}

/// The test "begins a tag": the line begins with `@`.
pub open spec fn tag_line() -> spec_fn(Seq<char>) -> bool {
    |line: Seq<char>| line.len() > 0 && line[0] == '@'
}

/// `lines` without the empty lines at its end and at its front.
pub open spec fn trim_lines(lines: Seq<Seq<char>>) -> Seq<Seq<char>> {
    let kept = lines.take(kept_len(lines, empty_line()));
    kept.skip(first_where(kept, full_line()))
}

/// The lines put together again, with a line break between each two.
pub open spec fn join_lines(lines: Seq<Seq<char>>) -> Seq<char>
    decreases lines.len(),
{
    if lines.len() == 0 {
        Seq::empty()
    } else if lines.len() == 1 {
        lines[0]
    } else {
        join_lines(lines.drop_last()) + seq!['\n'] + lines.last()
    }
}

/// The text that a block of lines holds: the lines without the empty ones
/// around them, put together; nothing where no line is left.
pub open spec fn block_text(lines: Seq<Seq<char>>) -> Option<Seq<char>> {
    let kept = trim_lines(lines);
    if kept.len() == 0 {
        None
    } else {
        Some(join_lines(kept))
    }
}

/// The text of a block, or the empty text where it holds none.
pub open spec fn block_text_or_empty(lines: Seq<Seq<char>>) -> Seq<char> {
    match block_text(lines) {
        Some(text) => text,
        None => Seq::empty(),
    }
}

/// Reads one tag from its block of lines, the first of which begins with `@`.
///
/// The tag's name is what follows the `@` up to the first whitespace. What
/// follows the name, with the further lines of the block, is the tag's text.
/// `param` takes the first word of its text as the parameter's name. A tag of
/// any other name than those known is kept as it stands.
pub open spec fn parse_tag(block: Seq<Seq<char>>) -> JsDocTagView {
    let head = block[0].skip(1);
    let name = head.take(first_where(head, blank_char()));
    let rest = trim_start(head.skip(first_where(head, blank_char())));
    let more = block.skip(1);
    if name == "param"@ {
        JsDocTagView::Param {
            name: rest.take(first_where(rest, blank_char())),
            doc: block_text(
                seq![trim_start(rest.skip(first_where(rest, blank_char())))] + more,
            ),
        }
    } else if name == "return"@ || name == "returns"@ {
        JsDocTagView::Return { doc: block_text(seq![rest] + more) }
    } else if name == "deprecated"@ {
        JsDocTagView::Deprecated { doc: block_text(seq![rest] + more) }
    } else if name == "example"@ {
        JsDocTagView::Example { doc: block_text(seq![rest] + more) }
    } else {
        JsDocTagView::Unsupported { name, value: block_text_or_empty(seq![rest] + more) }
    }
}

/// Where the block of the tag that begins at line `at` ends: at the next line
/// that begins a tag, or at the end of the lines.
pub open spec fn tag_end(lines: Seq<Seq<char>>, at: int) -> int {
    at + 1 + first_where(lines.skip(at + 1), tag_line())
}

/// The tags from line `at` on, which begins a tag, in source order.
pub open spec fn tags_from(lines: Seq<Seq<char>>, at: int) -> Seq<JsDocTagView>
    decreases lines.len() - at,
    via tags_from_decreases
{
    if 0 <= at < lines.len() {
        seq![parse_tag(lines.subrange(at, tag_end(lines, at)))] + tags_from(
            lines,
            tag_end(lines, at),
        )
    } else {
        Seq::empty()
    }
}

#[via_fn]
proof fn tags_from_decreases(lines: Seq<Seq<char>>, at: int) {
    if 0 <= at < lines.len() {
        lemma_first_where_bounds(lines.skip(at + 1), tag_line());
    }
}

/// Reads the body of a documentation comment: the description is the text of
/// the lines before the first tag; the tags follow.
pub open spec fn parse_js_doc(body: Seq<char>) -> JsDocView {
    let lines = clean_lines(body);
    let first_tag = first_where(lines, tag_line());
    JsDocView { doc: block_text(lines.take(first_tag)), tags: tags_from(lines, first_tag) }
}

/// The documentation comment that belongs to the syntax starting at `start`,
/// if one precedes it.
pub open spec fn js_doc_for_range(text: Seq<char>, start: int) -> Option<JsDocView> {
    match doc_comment_range(text, start) {
        Some((from, to)) => Some(parse_js_doc(text.subrange(from, to))),
        None => None,
    }
}

/// A string of the given characters.
///
/// Calls `String::from_iter` on the characters of `chars`, which collects them
/// in order.
#[verifier::external_body]
fn string_from_chars(chars: &Vec<char>) -> (s: String)
    ensures
        s@ == chars@,
{
    String::from_iter(chars.iter())
}

/// The deep view of a list of lines holds the view of each line.
pub proof fn lemma_lines_view(lines: Vec<Vec<char>>)
    ensures
        lines.deep_view().len() == lines@.len(),
        forall|i: int| 0 <= i < lines@.len() ==> #[trigger] lines.deep_view()[i] == lines@[i]@,
{
    assert forall|i: int| 0 <= i < lines@.len() implies #[trigger] lines.deep_view()[i]
        == lines@[i]@ by {
        assert(lines@[i].deep_view() =~= lines@[i]@);
    }
}

/// Joining one more line adds a line break and the line; joining the first
/// adds the line alone.
pub proof fn lemma_join_push(lines: Seq<Seq<char>>, line: Seq<char>)
    ensures
        join_lines(lines.push(line)) == if lines.len() == 0 {
            line
        } else {
            join_lines(lines) + seq!['\n'] + line
        },
{
    assert(lines.push(line).drop_last() =~= lines);
}

/// Reads the text that a block of lines holds.
fn text_of(lines: &Vec<Vec<char>>) -> (text: Option<String>)
    ensures
        text.deep_view() == block_text(lines.deep_view()),
{
    let ghost all = lines.deep_view();
    proof {
        lemma_lines_view(*lines);
    }
    let mut to: usize = lines.len();
    while to > 0 && lines[to - 1].len() == 0
        invariant
            to <= lines@.len(),
            all == lines.deep_view(),
            forall|i: int| 0 <= i < lines@.len() ==> #[trigger] all[i] == lines@[i]@,
            forall|j: int| to <= j < all.len() ==> all[j].len() == 0,
        decreases to,
    {
        to -= 1;
    }
    proof {
        lemma_kept_len(all, empty_line(), to as int);
    }
    let ghost kept = all.take(to as int);
    let mut from: usize = 0;
    while from < to && lines[from].len() == 0
        invariant
            from <= to <= lines@.len(),
            all == lines.deep_view(),
            forall|i: int| 0 <= i < lines@.len() ==> #[trigger] all[i] == lines@[i]@,
            forall|j: int| 0 <= j < from ==> all[j].len() == 0,
        decreases to - from,
    {
        from += 1;
    }
    proof {
        lemma_first_where(kept, full_line(), from as int);
        assert(trim_lines(all) =~= all.subrange(from as int, to as int));
    }
    if from == to {
        return None;
    }
    let mut out: Vec<char> = Vec::new();
    let mut i: usize = from;
    assert(all.subrange(from as int, from as int) =~= Seq::empty());
    while i < to
        invariant
            from <= i <= to <= lines@.len(),
            all == lines.deep_view(),
            forall|i: int| 0 <= i < lines@.len() ==> #[trigger] all[i] == lines@[i]@,
            out@ == join_lines(all.subrange(from as int, i as int)),
        decreases to - i,
    {
        proof {
            lemma_join_push(all.subrange(from as int, i as int), all[i as int]);
            assert(all.subrange(from as int, i + 1) =~= all.subrange(from as int, i as int).push(
                all[i as int],
            ));
        }
        let ghost joined = out@;
        if i > from {
            out.push('\n');
        }
        let line = &lines[i];
        let ghost start = out@;
        let mut j: usize = 0;
        while j < line.len()
            invariant
                j <= line@.len(),
                out@ =~= start + line@.take(j as int),
            decreases line@.len() - j,
        {
            out.push(line[j]);
            j += 1;
        }
        assert(line@.take(j as int) =~= line@);
        assert(out@ =~= if i > from {
            joined + seq!['\n'] + line@
        } else {
            line@
        });
        i += 1;
    }
    Some(string_from_chars(&out))
}

/// Whether the line begins a tag.
fn begins_tag(line: &Vec<char>) -> (b: bool)
    ensures
        b == tag_line()(line@),
{
    line.len() > 0 && line[0] == '@'
}

/// Finds the next line, from line `from` on, that begins a tag.
fn next_tag_line(lines: &Vec<Vec<char>>, from: usize) -> (at: usize)
    requires
        from <= lines@.len(),
    ensures
        from <= at <= lines@.len(),
        at - from == first_where(lines.deep_view().skip(from as int), tag_line()),
        at < lines@.len() ==> tag_line()(lines@[at as int]@),
{
    proof {
        lemma_lines_view(*lines);
    }
    let mut at: usize = from;
    while at < lines.len() && !begins_tag(&lines[at])
        invariant
            from <= at <= lines@.len(),
            forall|i: int| 0 <= i < lines@.len() ==> #[trigger] lines.deep_view()[i] == lines@[i]@,
            forall|j: int| from <= j < at ==> !tag_line()(lines.deep_view()[j]),
        decreases lines@.len() - at,
    {
        at += 1;
    }
    proof {
        lemma_first_where(lines.deep_view().skip(from as int), tag_line(), at - from);
    }
    at
}

/// The lines of a tag's block that hold its text: `first`, then the lines
/// after the tag's own line.
fn tag_body(first: Vec<char>, lines: &Vec<Vec<char>>, at: usize, end: usize) -> (body: Vec<
    Vec<char>,
>)
    requires
        at < end <= lines@.len(),
    ensures
        body.deep_view() == seq![first@] + lines.deep_view().subrange(at as int, end as int).skip(
            1,
        ),
{
    proof {
        lemma_lines_view(*lines);
    }
    let ghost more = lines.deep_view().subrange(at as int, end as int).skip(1);
    let mut body: Vec<Vec<char>> = Vec::new();
    body.push(first);
    let mut i: usize = at + 1;
    proof {
        lemma_lines_view(body);
        assert(body.deep_view() =~= seq![first@] + more.take(0));
    }
    while i < end
        invariant
            at < i <= end <= lines@.len(),
            more == lines.deep_view().subrange(at as int, end as int).skip(1),
            forall|i: int| 0 <= i < lines@.len() ==> #[trigger] lines.deep_view()[i] == lines@[i]@,
            body.deep_view() == seq![first@] + more.take(i - at - 1),
        decreases end - i,
    {
        let ghost before = body.deep_view();
        let line = lines[i].clone();
        body.push(line);
        proof {
            lemma_lines_view(body);
            assert(line@ == lines@[i as int]@);
            assert(body.deep_view() =~= before.push(line@));
            assert(more.take(i - at) =~= more.take(i - at - 1).push(more[i - at - 1]));
            assert(body.deep_view() =~= seq![first@] + more.take(i - at));
        }
        i += 1;
    }
    assert(more.take(end - at - 1) =~= more);
    body
}

/// Reads the tag whose block is the lines from `at` up to `end`.
fn read_tag(lines: &Vec<Vec<char>>, at: usize, end: usize) -> (tag: JsDocTag)
    requires
        at < end <= lines@.len(),
        tag_line()(lines@[at as int]@),
    ensures
        tag.deep_view() == parse_tag(lines.deep_view().subrange(at as int, end as int)),
{
    proof {
        lemma_lines_view(*lines);
    }
    let ghost block = lines.deep_view().subrange(at as int, end as int);
    let line = &lines[at];
    let ghost head = block[0].skip(1);
    assert(head == line@.skip(1));
    let name_end = skip_word(line, 1);
    let name_chars = copy_range(line, 1, name_end);
    assert(name_chars@ =~= head.take(first_where(head, blank_char())));
    let name = string_from_chars(&name_chars);
    let rest_start = skip_blanks(line, name_end);
    let ghost after_name = head.skip(first_where(head, blank_char()));
    assert(after_name =~= line@.skip(name_end as int));
    let ghost rest = trim_start(after_name);
    assert(rest =~= line@.skip(rest_start as int));
    if name == String::from_str("param") {
        let param_end = skip_word(line, rest_start);
        let param_chars = copy_range(line, rest_start, param_end);
        assert(param_chars@ =~= rest.take(first_where(rest, blank_char())));
        let doc_start = skip_blanks(line, param_end);
        let ghost after_param = rest.skip(first_where(rest, blank_char()));
        assert(after_param =~= line@.skip(param_end as int));
        let first = copy_range(line, doc_start, line.len());
        assert(first@ =~= trim_start(after_param));
        let body = tag_body(first, lines, at, end);
        return JsDocTag::Param { name: string_from_chars(&param_chars), doc: text_of(&body) };
    }
    let first = copy_range(line, rest_start, line.len());
    assert(first@ =~= rest);
    let body = tag_body(first, lines, at, end);
    let doc = text_of(&body);
    if name == String::from_str("return") || name == String::from_str("returns") {
        JsDocTag::Return { doc }
    } else if name == String::from_str("deprecated") {
        JsDocTag::Deprecated { doc }
    } else if name == String::from_str("example") {
        JsDocTag::Example { doc }
    } else {
        let value = match doc {
            Some(text) => text,
            None => String::new(),
        };
        JsDocTag::Unsupported { name, value }
    }
}

/// Reads the body of a documentation comment, which stands in `text` from
/// `from` up to `to`.
fn read_js_doc(text: &Vec<char>, from: usize, to: usize) -> (js_doc: JsDoc)
    requires
        from <= to <= text@.len(),
    ensures
        js_doc.deep_view() == parse_js_doc(text@.subrange(from as int, to as int)),
{
    let lines = cleaned_lines(text, from, to);
    let ghost all = lines.deep_view();
    proof {
        lemma_lines_view(lines);
        assert(all.skip(0) =~= all);
    }
    let first_tag = next_tag_line(&lines, 0);
    let mut description: Vec<Vec<char>> = Vec::new();
    let mut i: usize = 0;
    assert(description.deep_view() =~= all.take(0));
    while i < first_tag
        invariant
            i <= first_tag <= lines@.len(),
            all == lines.deep_view(),
            forall|i: int| 0 <= i < lines@.len() ==> #[trigger] all[i] == lines@[i]@,
            description.deep_view() == all.take(i as int),
        decreases first_tag - i,
    {
        let ghost before = description.deep_view();
        let line = lines[i].clone();
        description.push(line);
        proof {
            lemma_lines_view(description);
            assert(description.deep_view() =~= before.push(line@));
            assert(all.take(i + 1) =~= all.take(i as int).push(all[i as int]));
        }
        i += 1;
    }
    let doc = text_of(&description);
    let ghost total = tags_from(all, first_tag as int);
    let mut tags: Vec<JsDocTag> = Vec::new();
    let mut at: usize = first_tag;
    assert(tags.deep_view() =~= Seq::empty());
    while at < lines.len()
        invariant
            at <= lines@.len(),
            all == lines.deep_view(),
            forall|i: int| 0 <= i < lines@.len() ==> #[trigger] all[i] == lines@[i]@,
            at < lines@.len() ==> tag_line()(lines@[at as int]@),
            total == tags.deep_view() + tags_from(all, at as int),
        decreases lines@.len() - at,
    {
        let end = next_tag_line(&lines, at + 1);
        let ghost before = tags.deep_view();
        let tag = read_tag(&lines, at, end);
        tags.push(tag);
        proof {
            assert(end == tag_end(all, at as int));
            assert(tags.deep_view() =~= before.push(tag.deep_view()));
            let rest = tags_from(all, end as int);
            assert(before + (seq![tag.deep_view()] + rest) =~= before.push(tag.deep_view()) + rest);
        }
        at = end;
    }
    assert(total =~= tags.deep_view());
    JsDoc { doc, tags }
}

/// Finds and reads the documentation comment of the syntax starting at `start`.
pub fn js_doc_for(parsed_source: &ParsedSource, start: usize) -> (js_doc: Option<JsDoc>)
    ensures
        js_doc.deep_view() == js_doc_for_range(parsed_source.text@, start as int),
{
    match find_doc_comment(&parsed_source.text, start) {
        Some((from, to)) => Some(read_js_doc(&parsed_source.text, from, to)),
        None => None,
    }
}

} // verus!
