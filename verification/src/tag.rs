//! The tags of a command template.
//!
//! Two kinds of tags are kept from mustache: one that loads a partial, which comes from a file that
//! is not known here, and one that writes the variables as a whole, on which mustache panics. They
//! can only be told from other text by following the delimiters through the template.

use vstd::prelude::*;

verus! {

/// A character with the Unicode property `White_Space`.
pub open spec fn blank(c: char) -> bool {
    let code = c as u32;
    ||| 0x9 <= code <= 0xd
    ||| code == 0x20
    ||| code == 0x85
    ||| code == 0xa0
    ||| code == 0x1680
    ||| 0x2000 <= code <= 0x200a
    ||| code == 0x2028
    ||| code == 0x2029
    ||| code == 0x202f
    ||| code == 0x205f
    ||| code == 0x3000
}

/// A text without the blanks at its start.
pub open spec fn trimmed_start(text: Seq<char>) -> Seq<char>
    decreases text.len(),
{
    if text.len() > 0 && blank(text[0]) {
        trimmed_start(text.drop_first())
    } else {
        text
    }
}

/// A text without the blanks at its end.
pub open spec fn trimmed_end(text: Seq<char>) -> Seq<char>
    decreases text.len(),
{
    if text.len() > 0 && blank(text.last()) {
        trimmed_end(text.drop_last())
    } else {
        text
    }
}

/// A text without the blanks around it.
pub open spec fn trimmed(text: Seq<char>) -> Seq<char> {
    trimmed_end(trimmed_start(text))
}

/// The length of the word that a text starts with.
pub open spec fn word_len(text: Seq<char>) -> int
    decreases text.len(),
{
    if text.len() == 0 || blank(text[0]) {
        0
    } else {
        1 + word_len(text.drop_first())
    }
}

/// How many characters of a delimiter stand at an index, if the first `k` do.
pub open spec fn matched(template: Seq<char>, i: int, delimiter: Seq<char>, k: nat) -> nat
    decreases delimiter.len() - k,
{
    if k < delimiter.len() && i + k < template.len() && template[i + k] == delimiter[k as int] {
        matched(template, i, delimiter, k + 1)
    } else {
        k
    }
}

/// The index behind the first opening delimiter from an index on. A character that breaks a
/// delimiter off is text, and does not start another one.
pub open spec fn tag_start(template: Seq<char>, i: int, open: Seq<char>) -> Option<int>
    decreases template.len() - i,
{
    if i >= template.len() {
        None
    } else {
        let count = matched(template, i, open, 0);
        if count == open.len() {
            Some(i + count)
        } else if i + count >= template.len() {
            None
        } else {
            tag_start(template, i + count + 1, open)
        }
    }
}

/// How a tag ends.
pub enum TagEnd<N> {
    /// The content of the tag ends, and the text goes on behind the closing delimiter.
    Closed { end: N, next: N },
    /// The template ends within the closing delimiter, which makes the tag a text.
    Cut,
    /// The tag has no end, or its closing delimiter is broken off.
    Failed,
}

/// The end of the tag whose content starts at `start` and is known up to `i`. A content that starts
/// with a brace holds the brace that closes it, which is `braced` until it has been found.
pub open spec fn tag_end(
    template: Seq<char>,
    start: int,
    i: int,
    braced: bool,
    close: Seq<char>,
) -> TagEnd<int>
    decreases template.len() - i,
{
    if i >= template.len() {
        TagEnd::Failed
    } else if i == start && template[i] == '{' {
        tag_end(template, start, i + 1, true, close)
    } else if braced && template[i] == '}' {
        tag_end(template, start, i + 1, false, close)
    } else if template[i] != close[0] {
        tag_end(template, start, i + 1, braced, close)
    } else if close.len() == 1 {
        TagEnd::Closed { end: i, next: i + 1 }
    } else if i + 1 >= template.len() {
        TagEnd::Cut
    } else if template[i + 1] != close[1] {
        TagEnd::Failed
    } else if close.len() == 2 {
        TagEnd::Closed { end: i, next: i + 2 }
    } else {
        tag_end(template, start, i + 2, braced, close)
    }
}

/// An open section. An inverted one is written if its variable is missing.
#[verifier::ext_equal]
pub struct SectionView {
    pub name: Seq<char>,
    pub inverted: bool,
}

/// A name without the dot at its end, which means nothing. The name that is a lone dot becomes
/// empty.
pub open spec fn section_name(name: Seq<char>) -> Seq<char> {
    if name.len() > 0 && name.last() == '.' {
        name.drop_last()
    } else {
        name
    }
}

impl SectionView {
    /// A lone dot in the section is not the variables as a whole, or is not written at all.
    ///
    /// A section on a variable makes the text of the variable what a lone dot stands for, and is
    /// left out if there is no such text. An inverted one is left out if there is the variable, and
    /// changes nothing if it is missing. A section on a lone dot changes nothing either, and an
    /// inverted one is left out, since what a lone dot stands for is never missing. A name with a
    /// dot in it is missing, since no variable has parts.
    pub open spec fn shields(self, vars: Set<Seq<char>>) -> bool {
        if self.name.len() == 0 {
            self.inverted
        } else {
            self.inverted ==> vars.contains(self.name) && !self.name.contains('.')
        }
    }
}

/// What is known of a template up to an index.
#[verifier::ext_equal]
pub struct TagScanView {
    /// The names of the variables.
    pub vars: Set<Seq<char>>,
    pub open: Seq<char>,
    pub close: Seq<char>,
    pub sections: Seq<SectionView>,
    /// There is a tag that loads a partial or writes the variables as a whole.
    pub harmful: bool,
}

/// A lone dot stands for the variables as a whole: no open section gives it another meaning.
pub open spec fn exposed(sections: Seq<SectionView>, vars: Set<Seq<char>>) -> bool {
    forall|i: int| 0 <= i < sections.len() ==> !(#[trigger] sections[i]).shields(vars)
}

/// The delimiters that a tag sets, if it is well-formed.
pub open spec fn new_delimiters(content: Seq<char>) -> Option<(Seq<char>, Seq<char>)> {
    if content.len() <= 2 || content.last() != '=' {
        None
    } else {
        let words = trimmed(content.subrange(1, content.len() - 1));
        let len = word_len(words);
        if len == 0 || len == words.len() {
            None
        } else {
            Some((words.take(len), trimmed_start(words.skip(len))))
        }
    }
}

impl TagScanView {
    /// What is known after a tag that writes a value, unless it has no name.
    pub open spec fn after_value(self, name: Seq<char>) -> Option<TagScanView> {
        if name.len() == 0 {
            None
        } else {
            Some(
                TagScanView {
                    harmful: self.harmful || (name == seq!['.'] && exposed(
                        self.sections,
                        self.vars,
                    )),
                    ..self
                },
            )
        }
    }

    /// What is known after the start of a section, unless it has no name.
    pub open spec fn after_section_start(self, name: Seq<char>, inverted: bool) -> Option<
        TagScanView,
    > {
        if name.len() == 0 {
            None
        } else {
            let section = SectionView { name: section_name(name), inverted };
            Some(TagScanView { sections: self.sections.push(section), ..self })
        }
    }

    /// What is known after the end of a section, unless another section has to end first.
    pub open spec fn after_section_end(self, name: Seq<char>) -> Option<TagScanView> {
        if name.len() == 0 || self.sections.len() == 0 || self.sections.last().name
            != section_name(name) {
            None
        } else {
            Some(TagScanView { sections: self.sections.drop_last(), ..self })
        }
    }

    /// What is known after a tag, or nothing if the tag makes the template ill-formed.
    pub open spec fn after_tag(self, content: Seq<char>) -> Option<TagScanView> {
        if trimmed(content).len() == 0 {
            None
        } else {
            let name = trimmed(content.drop_first());
            match content[0] {
                '!' => Some(self),
                '=' => match new_delimiters(content) {
                    Some((open, close)) => Some(TagScanView { open, close, ..self }),
                    None => None,
                },
                '>' => if name.len() == 0 {
                    None
                } else {
                    Some(TagScanView { harmful: true, ..self })
                },
                '#' => self.after_section_start(name, false),
                '^' => self.after_section_start(name, true),
                '/' => self.after_section_end(name),
                '&' => self.after_value(name),
                '{' => if content.last() != '}' {
                    None
                } else {
                    self.after_value(trimmed(content.subrange(1, content.len() - 1)))
                },
                _ => self.after_value(trimmed(content)),
            }
        }
    }

    /// The template ends here without harm: it has no harmful tag, or it is ill-formed because a
    /// section has not been ended.
    pub open spec fn ends_harmless(self) -> bool {
        !self.harmful || self.sections.len() > 0
    }
}

/// A tag ends behind its start, within the template.
pub proof fn lemma_tag_end(template: Seq<char>, start: int, i: int, braced: bool, close: Seq<char>)
    requires
        start <= i <= template.len(),
    ensures
        tag_end(template, start, i, braced, close) matches TagEnd::Closed { end, next } ==> start
            <= end < next <= template.len(),
    decreases template.len() - i,
{
    if i < template.len() {
        if i == start && template[i] == '{' {
            lemma_tag_end(template, start, i + 1, true, close);
        } else if braced && template[i] == '}' {
            lemma_tag_end(template, start, i + 1, false, close);
        } else if template[i] != close[0] {
            lemma_tag_end(template, start, i + 1, braced, close);
        } else if i + 1 < template.len() {
            lemma_tag_end(template, start, i + 2, braced, close);
        }
    }
}

/// No more of a delimiter stands at an index than the template holds.
proof fn lemma_matched(template: Seq<char>, i: int, delimiter: Seq<char>, k: nat)
    requires
        0 <= i,
        k <= delimiter.len(),
        i + k <= template.len(),
    ensures
        k <= matched(template, i, delimiter, k) <= delimiter.len(),
        i + matched(template, i, delimiter, k) <= template.len(),
    decreases delimiter.len() - k,
{
    if k < delimiter.len() && i + k < template.len() && template[i + k] == delimiter[k as int] {
        lemma_matched(template, i, delimiter, k + 1);
    }
}

/// A tag starts at or behind the index from which it is looked for.
pub proof fn lemma_tag_start(template: Seq<char>, i: int, open: Seq<char>)
    requires
        0 <= i,
    ensures
        tag_start(template, i, open) matches Some(start) ==> i <= start <= template.len(),
    decreases template.len() - i,
{
    if i < template.len() {
        lemma_matched(template, i, open, 0);
        let count = matched(template, i, open, 0);
        if count != open.len() && i + count < template.len() {
            lemma_tag_start(template, i + count + 1, open);
        }
    }
}

/// A template is harmless from an index on: it is ill-formed, or neither loads a partial nor writes
/// the variables as a whole.
pub open spec fn harmless_from(template: Seq<char>, i: int, scan: TagScanView) -> bool
    decreases template.len() - i,
        when 0 <= i
{
    match tag_start(template, i, scan.open) {
        Some(start) => match tag_end(template, start, start, false, scan.close) {
            TagEnd::Closed { end, next } => match scan.after_tag(template.subrange(start, end)) {
                Some(after) => {
                    proof {
                        lemma_tag_start(template, i, scan.open);
                        lemma_tag_end(template, start, start, false, scan.close);
                    }
                    harmless_from(template, next, after)
                },
                None => true,
            },
            TagEnd::Cut => scan.ends_harmless(),
            TagEnd::Failed => true,
        },
        None => scan.ends_harmless(),
    }
}

/// Tells whether a character is blank.
pub fn is_blank(c: char) -> (result: bool)
    ensures
        result == blank(c),
{
    let code: u32 = c as u32;
    (0x9 <= code && code <= 0xd) || code == 0x20 || code == 0x85 || code == 0xa0 || code == 0x1680
        || (0x2000 <= code && code <= 0x200a) || code == 0x2028 || code == 0x2029 || code == 0x202f
        || code == 0x205f || code == 0x3000
}

fn part(text: &Vec<char>, from: usize, to: usize) -> (copy: Vec<char>)
    requires
        from <= to <= text.len(),
    ensures
        copy@ == text@.subrange(from as int, to as int),
{
    let mut copy: Vec<char> = Vec::new();
    let mut i: usize = from;
    while i < to
        invariant
            from <= i <= to <= text.len(),
            copy@ == text@.subrange(from as int, i as int),
        decreases to - i,
    {
        copy.push(text[i]);
        i += 1;
        proof {
            assert(text@.subrange(from as int, i as int) =~= text@.subrange(
                from as int,
                i - 1,
            ).push(text@[i - 1]));
        }
    }
    copy
}

fn has_char(text: &Vec<char>, c: char) -> (found: bool)
    ensures
        found == text@.contains(c),
{
    let mut i: usize = 0;
    while i < text.len()
        invariant
            i <= text.len(),
            forall|j: int| 0 <= j < i ==> text@[j] != c,
        decreases text.len() - i,
    {
        if text[i] == c {
            return true;
        }
        i += 1;
    }
    false
}

fn chars_of(text: &str) -> (chars: Vec<char>)
    ensures
        chars@ == text@,
{
    let len = text.unicode_len();
    let mut chars: Vec<char> = Vec::new();
    let mut i: usize = 0;
    while i < len
        invariant
            i <= len,
            len == text@.len(),
            chars@ == text@.take(i as int),
        decreases len - i,
    {
        chars.push(text.get_char(i));
        i += 1;
        proof {
            assert(text@.take(i as int) =~= text@.take(i - 1).push(text@[i - 1]));
        }
    }
    proof {
        assert(text@.take(i as int) =~= text@);
    }
    chars
}

fn same_chars(a: &Vec<char>, b: &Vec<char>) -> (same: bool)
    ensures
        same == (a@ == b@),
{
    if a.len() != b.len() {
        return false;
    }
    let mut i: usize = 0;
    while i < a.len()
        invariant
            i <= a.len(),
            a.len() == b.len(),
            forall|j: int| 0 <= j < i ==> a@[j] == b@[j],
        decreases a.len() - i,
    {
        if a[i] != b[i] {
            return false;
        }
        i += 1;
    }
    proof {
        assert(a@ =~= b@);
    }
    true
}

fn trim_start(text: &Vec<char>) -> (rest: Vec<char>)
    ensures
        rest@ == trimmed_start(text@),
{
    let mut i: usize = 0;
    proof {
        assert(text@.skip(0) =~= text@);
    }
    while i < text.len() && is_blank(text[i])
        invariant
            i <= text.len(),
            trimmed_start(text@.skip(i as int)) == trimmed_start(text@),
        decreases text.len() - i,
    {
        proof {
            assert(text@.skip(i as int)[0] == text@[i as int]);
            assert(text@.skip(i as int).drop_first() =~= text@.skip(i + 1));
        }
        i += 1;
    }
    proof {
        assert(text@.skip(i as int) =~= text@.subrange(i as int, text@.len() as int));
    }
    part(text, i, text.len())
}

fn trim_end(text: &Vec<char>) -> (rest: Vec<char>)
    ensures
        rest@ == trimmed_end(text@),
{
    let mut i: usize = text.len();
    proof {
        assert(text@.take(i as int) =~= text@);
    }
    while i > 0 && is_blank(text[i - 1])
        invariant
            i <= text.len(),
            trimmed_end(text@.take(i as int)) == trimmed_end(text@),
        decreases i,
    {
        proof {
            assert(text@.take(i as int).drop_last() =~= text@.take(i - 1));
        }
        i -= 1;
    }
    proof {
        assert(text@.take(i as int) =~= text@.subrange(0, i as int));
    }
    part(text, 0, i)
}

fn trim(text: &Vec<char>) -> (rest: Vec<char>)
    ensures
        rest@ == trimmed(text@),
{
    trim_end(&trim_start(text))
}

fn count_word(text: &Vec<char>) -> (len: usize)
    ensures
        len == word_len(text@),
        len <= text.len(),
{
    let mut i: usize = 0;
    proof {
        assert(text@.skip(0) =~= text@);
    }
    while i < text.len() && !is_blank(text[i])
        invariant
            i <= text.len(),
            word_len(text@) == i + word_len(text@.skip(i as int)),
        decreases text.len() - i,
    {
        proof {
            assert(text@.skip(i as int)[0] == text@[i as int]);
            assert(text@.skip(i as int).drop_first() =~= text@.skip(i + 1));
        }
        i += 1;
    }
    i
}

fn count_matched(template: &Vec<char>, i: usize, delimiter: &Vec<char>) -> (count: usize)
    requires
        i <= template.len(),
    ensures
        count == matched(template@, i as int, delimiter@, 0),
        i + count <= template.len(),
{
    let mut count: usize = 0;
    while count < delimiter.len() && count < template.len() - i && template[i + count]
        == delimiter[count]
        invariant
            i + count <= template.len(),
            matched(template@, i as int, delimiter@, count as nat) == matched(
                template@,
                i as int,
                delimiter@,
                0,
            ),
        decreases delimiter.len() - count,
    {
        count += 1;
    }
    count
}

fn find_start(template: &Vec<char>, from: usize, open: &Vec<char>) -> (start: Option<usize>)
    ensures
        match start {
            Some(start) => tag_start(template@, from as int, open@) == Some(start as int) && from
                <= start <= template.len(),
            None => tag_start(template@, from as int, open@) is None,
        },
{
    let mut i: usize = from;
    while i < template.len()
        invariant
            from <= i,
            tag_start(template@, i as int, open@) == tag_start(template@, from as int, open@),
        decreases template.len() - i,
    {
        let count = count_matched(template, i, open);
        if count == open.len() {
            return Some(i + count);
        }
        if count >= template.len() - i {
            return None;
        }
        i += count + 1;
    }
    None
}

fn find_end(template: &Vec<char>, start: usize, close: &Vec<char>) -> (found: TagEnd<usize>)
    requires
        start <= template.len(),
        close.len() > 0,
    ensures
        match found {
            TagEnd::Closed { end, next } => {
                &&& tag_end(template@, start as int, start as int, false, close@)
                    == TagEnd::Closed { end: end as int, next: next as int }
                &&& start <= end < next <= template.len()
            },
            TagEnd::Cut => tag_end(template@, start as int, start as int, false, close@) is Cut,
            TagEnd::Failed => tag_end(template@, start as int, start as int, false, close@)
                is Failed,
        },
{
    let mut i: usize = start;
    let mut braced = false;
    while i < template.len()
        invariant
            start <= i <= template.len(),
            close.len() > 0,
            tag_end(template@, start as int, i as int, braced, close@) == tag_end(
                template@,
                start as int,
                start as int,
                false,
                close@,
            ),
        decreases template.len() - i,
    {
        if i == start && template[i] == '{' {
            braced = true;
            i += 1;
        } else if braced && template[i] == '}' {
            braced = false;
            i += 1;
        } else if template[i] != close[0] {
            i += 1;
        } else if close.len() == 1 {
            return TagEnd::Closed { end: i, next: i + 1 };
        } else if template.len() - i <= 1 {
            return TagEnd::Cut;
        } else if template[i + 1] != close[1] {
            return TagEnd::Failed;
        } else if close.len() == 2 {
            return TagEnd::Closed { end: i, next: i + 2 };
        } else {
            i += 2;
        }
    }
    TagEnd::Failed
}

/// An open section.
struct Section {
    name: Vec<char>,
    inverted: bool,
}

impl View for Section {
    type V = SectionView;

    closed spec fn view(&self) -> SectionView {
        SectionView { name: self.name@, inverted: self.inverted }
    }
}

/// The characters of the names of variables.
spec fn names_view(names: Seq<Vec<char>>) -> Set<Seq<char>> {
    Set::new(|name: Seq<char>| exists|i: int| 0 <= i < names.len() && (#[trigger] names[i])@ == name)
}

/// What is known of a template up to an index.
struct TagScan {
    names: Vec<Vec<char>>,
    open: Vec<char>,
    close: Vec<char>,
    sections: Vec<Section>,
    harmful: bool,
}

impl View for TagScan {
    type V = TagScanView;

    closed spec fn view(&self) -> TagScanView {
        TagScanView {
            vars: names_view(self.names@),
            open: self.open@,
            close: self.close@,
            sections: self.sections@.map_values(|section: Section| section@),
            harmful: self.harmful,
        }
    }
}

fn make_section_name(name: Vec<char>) -> (result: Vec<char>)
    ensures
        result@ == section_name(name@),
{
    let mut name = name;
    if name.len() > 0 && name[name.len() - 1] == '.' {
        let ghost before = name@;
        let _ = name.pop();
        proof {
            assert(name@ =~= before.drop_last());
        }
    }
    name
}

fn make_delimiters(content: &Vec<char>) -> (delimiters: Option<(Vec<char>, Vec<char>)>)
    ensures
        match delimiters {
            Some((open, close)) => new_delimiters(content@) == Some((open@, close@)) && close.len()
                > 0,
            None => new_delimiters(content@) is None,
        },
{
    if content.len() <= 2 || content[content.len() - 1] != '=' {
        return None;
    }
    let words = trim(&part(content, 1, content.len() - 1));
    let len = count_word(&words);
    if len == 0 || len == words.len() {
        return None;
    }
    let rest = part(&words, len, words.len());
    proof {
        assert(words@.take(len as int) =~= words@.subrange(0, len as int));
        assert(words@.skip(len as int) =~= rest@);
        lemma_trimmed_end(trimmed_start(content@.subrange(1, content@.len() - 1)));
        lemma_trimmed_start(rest@);
    }
    Some((part(&words, 0, len), trim_start(&rest)))
}

proof fn lemma_trimmed_end(text: Seq<char>)
    ensures
        trimmed_end(text).len() > 0 ==> !blank(trimmed_end(text).last()),
    decreases text.len(),
{
    if text.len() > 0 && blank(text.last()) {
        lemma_trimmed_end(text.drop_last());
    }
}

proof fn lemma_trimmed_start(text: Seq<char>)
    requires
        text.len() > 0,
        !blank(text.last()),
    ensures
        trimmed_start(text).len() > 0,
    decreases text.len(),
{
    if blank(text[0]) {
        assert(text.drop_first().last() == text.last());
        lemma_trimmed_start(text.drop_first());
    }
}

impl TagScan {
    fn is_defined(&self, name: &Vec<char>) -> (result: bool)
        ensures
            result == self@.vars.contains(name@),
    {
        let mut i: usize = 0;
        while i < self.names.len()
            invariant
                i <= self.names.len(),
                forall|j: int| 0 <= j < i ==> (#[trigger] self.names@[j])@ != name@,
            decreases self.names.len() - i,
        {
            if same_chars(&self.names[i], name) {
                return true;
            }
            i += 1;
        }
        false
    }

    fn is_shield(&self, section: &Section) -> (result: bool)
        ensures
            result == section@.shields(self@.vars),
    {
        if section.name.len() == 0 {
            section.inverted
        } else {
            !section.inverted || (self.is_defined(&section.name) && !has_char(&section.name, '.'))
        }
    }

    fn is_exposed(&self) -> (result: bool)
        ensures
            result == exposed(self@.sections, self@.vars),
    {
        let mut i: usize = 0;
        while i < self.sections.len()
            invariant
                i <= self.sections.len(),
                forall|j: int| 0 <= j < i ==> !(#[trigger] self@.sections[j]).shields(self@.vars),
            decreases self.sections.len() - i,
        {
            proof {
                assert(self@.sections[i as int] == self.sections@[i as int]@);
            }
            if self.is_shield(&self.sections[i]) {
                return false;
            }
            i += 1;
        }
        true
    }

    fn take_value(&mut self, name: &Vec<char>) -> (well_formed: bool)
        ensures
            match old(self)@.after_value(name@) {
                Some(after) => well_formed && final(self)@ == after,
                None => !well_formed,
            },
            final(self).close == old(self).close,
    {
        if name.len() == 0 {
            return false;
        }
        if name.len() == 1 && name[0] == '.' && self.is_exposed() {
            proof {
                assert(name@ =~= seq!['.']);
            }
            self.harmful = true;
        }
        true
    }

    fn take_section_start(&mut self, name: Vec<char>, inverted: bool) -> (well_formed: bool)
        ensures
            match old(self)@.after_section_start(name@, inverted) {
                Some(after) => well_formed && final(self)@ == after,
                None => !well_formed,
            },
            final(self).close == old(self).close,
    {
        if name.len() == 0 {
            return false;
        }
        let section = Section { name: make_section_name(name), inverted };
        self.sections.push(section);
        proof {
            assert(self@.sections =~= old(self)@.sections.push(section@));
        }
        true
    }

    fn take_section_end(&mut self, name: Vec<char>) -> (well_formed: bool)
        ensures
            match old(self)@.after_section_end(name@) {
                Some(after) => well_formed && final(self)@ == after,
                None => !well_formed,
            },
            final(self).close == old(self).close,
    {
        if name.len() == 0 || self.sections.len() == 0 {
            return false;
        }
        let name = make_section_name(name);
        if !same_chars(&self.sections[self.sections.len() - 1].name, &name) {
            return false;
        }
        let _ = self.sections.pop();
        proof {
            assert(self@.sections =~= old(self)@.sections.drop_last());
        }
        true
    }

    fn take_tag(&mut self, content: &Vec<char>) -> (well_formed: bool)
        requires
            old(self).close.len() > 0,
        ensures
            match old(self)@.after_tag(content@) {
                Some(after) => well_formed && final(self)@ == after,
                None => !well_formed,
            },
            final(self).close.len() > 0,
    {
        let whole = trim(content);
        if whole.len() == 0 {
            return false;
        }
        proof {
            if content@.len() == 0 {
                assert(trimmed(content@).len() == 0);
            }
            assert(content@.subrange(1, content@.len() as int) =~= content@.drop_first());
        }
        let name = trim(&part(content, 1, content.len()));
        match content[0] {
            '!' => true,
            '=' => match make_delimiters(content) {
                Some((open, close)) => {
                    self.open = open;
                    self.close = close;
                    true
                },
                None => false,
            },
            '>' => {
                if name.len() == 0 {
                    return false;
                }
                self.harmful = true;
                true
            },
            '#' => self.take_section_start(name, false),
            '^' => self.take_section_start(name, true),
            '/' => self.take_section_end(name),
            '&' => self.take_value(&name),
            '{' => {
                if content[content.len() - 1] != '}' {
                    return false;
                }
                self.take_value(&trim(&part(content, 1, content.len() - 1)))
            },
            _ => self.take_value(&whole),
        }
    }
}

/// Nothing is known of a template but its variables and the delimiters that it starts with.
pub open spec fn first_scan(vars: Set<Seq<char>>) -> TagScanView {
    TagScanView {
        vars,
        open: seq!['{', '{'],
        close: seq!['}', '}'],
        sections: Seq::empty(),
        harmful: false,
    }
}

/// A template refers to nothing but its variables by name: it loads no partial, and has no tag that
/// writes the variables as a whole. An ill-formed template refers to nothing at all.
pub open spec fn plain_template(template: Seq<char>, vars: Set<Seq<char>>) -> bool {
    harmless_from(template, 0, first_scan(vars))
}

/// No tag starts in a template.
pub open spec fn has_no_tag(template: Seq<char>) -> bool {
    tag_start(template, 0, seq!['{', '{']) is None
}

/// The names of variables.
pub open spec fn names_of(names: Seq<String>) -> Set<Seq<char>> {
    Set::new(|name: Seq<char>| exists|i: int| 0 <= i < names.len() && (#[trigger] names[i])@ == name)
}

/// Tells whether a template refers to nothing but its variables by name.
pub fn is_plain_template(template: &str, names: &Vec<String>) -> (plain: bool)
    ensures
        plain == plain_template(template@, names_of(names@)),
{
    let chars = chars_of(template);
    let mut scan = TagScan {
        names: Vec::new(),
        open: vec!['{', '{'],
        close: vec!['}', '}'],
        sections: Vec::new(),
        harmful: false,
    };
    let mut n: usize = 0;
    while n < names.len()
        invariant
            n <= names.len(),
            scan.names.len() == n,
            forall|j: int| 0 <= j < n ==> (#[trigger] scan.names@[j])@ == names@[j]@,
            scan.open@ == seq!['{', '{'],
            scan.close@ == seq!['}', '}'],
            scan.sections.len() == 0,
            !scan.harmful,
        decreases names.len() - n,
    {
        scan.names.push(chars_of(names[n].as_str()));
        n += 1;
    }
    proof {
        assert forall|name: Seq<char>| names_of(names@).contains(name) implies names_view(
            scan.names@,
        ).contains(name) by {
            let i = choose|i: int| 0 <= i < names@.len() && (#[trigger] names@[i])@ == name;
            assert(scan.names@[i]@ == name);
        }
        assert forall|name: Seq<char>| names_view(scan.names@).contains(name) implies names_of(
            names@,
        ).contains(name) by {
            let i = choose|i: int|
                0 <= i < scan.names@.len() && (#[trigger] scan.names@[i])@ == name;
            assert(names@[i]@ == name);
        }
        assert(scan@ =~= first_scan(names_of(names@)));
    }
    let mut i: usize = 0;
    loop
        invariant
            chars@ == template@,
            i <= chars.len(),
            scan.close.len() > 0,
            harmless_from(chars@, i as int, scan@) == plain_template(
                template@,
                names_of(names@),
            ),
        decreases chars.len() - i,
    {
        match find_start(&chars, i, &scan.open) {
            Some(start) => match find_end(&chars, start, &scan.close) {
                TagEnd::Closed { end, next } => {
                    if !scan.take_tag(&part(&chars, start, end)) {
                        return true;
                    }
                    i = next;
                },
                TagEnd::Cut => {
                    return !scan.harmful || scan.sections.len() > 0;
                },
                TagEnd::Failed => {
                    return true;
                },
            },
            None => {
                return !scan.harmful || scan.sections.len() > 0;
            },
        }
    }
}

proof fn lemma_text_has_no_start(template: Seq<char>, i: int, end: int)
    requires
        0 <= i <= end <= template.len(),
        forall|k: int| i <= k < end ==> #[trigger] template[k] != '{',
    ensures
        tag_start(template, i, seq!['{', '{']) == tag_start(template, end, seq!['{', '{']),
    decreases end - i,
{
    if i < end {
        assert(matched(template, i, seq!['{', '{'], 0) == 0);
        lemma_text_has_no_start(template, i + 1, end);
    }
}

proof fn lemma_content_has_no_end(template: Seq<char>, start: int, i: int, end: int)
    requires
        0 <= start <= i <= end < template.len() - 1,
        start < end,
        template[start] != '{',
        forall|k: int| start <= k < end ==> #[trigger] template[k] != '}',
        template[end] == '}',
        template[end + 1] == '}',
    ensures
        tag_end(template, start, i, false, seq!['}', '}']) == (TagEnd::Closed {
            end,
            next: end + 2,
        }),
    decreases end - i,
{
    if i < end {
        assert(template[i] != '}');
        lemma_content_has_no_end(template, start, i + 1, end);
    }
}

/// A text in which a single tag stands: text without an opening brace before and behind it, and a
/// content without braces that could end it.
pub open spec fn with_one_tag(before: Seq<char>, content: Seq<char>, after: Seq<char>) -> Seq<
    char,
> {
    before + seq!['{', '{'] + content + seq!['}', '}'] + after
}

proof fn lemma_one_tag(
    before: Seq<char>,
    content: Seq<char>,
    after: Seq<char>,
    vars: Set<Seq<char>>,
)
    requires
        !before.contains('{'),
        !after.contains('{'),
        !content.contains('}'),
        content.len() > 0,
        content[0] != '{',
        content[0] != '=',
    ensures
        plain_template(with_one_tag(before, content, after), vars) == match first_scan(
            vars,
        ).after_tag(content) {
            Some(scan) => scan.ends_harmless(),
            None => true,
        },
{
    let template = with_one_tag(before, content, after);
    let open = seq!['{', '{'];
    let at = before.len() as int;
    let start = at + 2;
    let end = start + content.len();
    let next = end + 2;
    assert forall|k: int| 0 <= k < at implies #[trigger] template[k] != '{' by {
        assert(template[k] == before[k]);
        assert(before.contains(before[k]));
    }
    assert forall|k: int| start <= k < end implies #[trigger] template[k] != '}' by {
        assert(template[k] == content[k - start]);
        assert(content.contains(content[k - start]));
    }
    assert forall|k: int| next <= k < template.len() implies #[trigger] template[k] != '{' by {
        assert(template[k] == after[k - next]);
        assert(after.contains(after[k - next]));
    }
    assert(template[at] == '{' && template[at + 1] == '{');
    assert(template[start] == content[0]);
    assert(template[end] == '}' && template[end + 1] == '}');
    assert(template.subrange(start, end) =~= content);
    lemma_text_has_no_start(template, 0, at);
    reveal_with_fuel(matched, 3);
    assert(matched(template, at, open, 0) == 2);
    assert(tag_start(template, 0, open) == Some(start));
    lemma_content_has_no_end(template, start, start, end);
    lemma_text_has_no_start(template, next, template.len() as int);
    assert(tag_start(template, next, open) is None);
    reveal_with_fuel(harmless_from, 2);
}

/// A text without a tag is plain, and so is one whose only tag writes a variable: its name is not a
/// lone dot, and does not start with a character that gives a tag another meaning.
pub proof fn variables_are_plain(
    before: Seq<char>,
    content: Seq<char>,
    after: Seq<char>,
    vars: Set<Seq<char>>,
)
    requires
        !before.contains('{'),
        !after.contains('{'),
        !content.contains('}'),
        content.len() > 0,
        content[0] != '{' && content[0] != '=' && content[0] != '>' && content[0] != '#'
            && content[0] != '^' && content[0] != '/',
        trimmed(content) != seq!['.'],
        content[0] == '&' ==> trimmed(content.drop_first()) != seq!['.'],
    ensures
        plain_template(before, vars),
        plain_template(with_one_tag(before, content, after), vars),
{
    lemma_one_tag(before, content, after, vars);
    assert forall|k: int| 0 <= k < before.len() implies #[trigger] before[k] != '{' by {
        assert(before.contains(before[k]));
    }
    lemma_text_has_no_start(before, 0, before.len() as int);
    assert(tag_start(before, 0, seq!['{', '{']) is None);
}

/// A partial is never plain, and neither is a tag that writes the variables as a whole.
pub proof fn partials_and_lone_dots_are_not_plain(
    before: Seq<char>,
    content: Seq<char>,
    after: Seq<char>,
    vars: Set<Seq<char>>,
)
    requires
        !before.contains('{'),
        !after.contains('{'),
        !content.contains('}'),
        content.len() > 0,
        content[0] != '{',
        (content[0] == '>' && trimmed(content.drop_first()).len() > 0) || (content[0] == '&'
            && trimmed(content.drop_first()) == seq!['.']) || trimmed(content) == seq!['.'],
        trimmed(content).len() > 0,
    ensures
        !plain_template(with_one_tag(before, content, after), vars),
{
    if trimmed(content) == seq!['.'] {
        lemma_trimmed_text(content);
    }
    lemma_one_tag(before, content, after, vars);
    let scan = first_scan(vars);
    assert(exposed(scan.sections, vars));
}

proof fn lemma_trimmed_text(text: Seq<char>)
    requires
        trimmed(text) == seq!['.'],
    ensures
        text[0] == '.' || blank(text[0]),
{
    if text.len() > 0 && !blank(text[0]) {
        lemma_trimmed_end_keeps_first(text);
    }
}

proof fn lemma_trimmed_end_keeps_first(text: Seq<char>)
    requires
        text.len() > 0,
        !blank(text[0]),
    ensures
        trimmed_end(text).len() > 0,
        trimmed_end(text)[0] == text[0],
    decreases text.len(),
{
    if blank(text.last()) {
        lemma_trimmed_end_keeps_first(text.drop_last());
    }
}

} // verus!
