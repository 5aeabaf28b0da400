use vstd::prelude::*;
use vstd::string::StrSliceExecFns;

verus! {

/// An entry of a directory.
#[derive(Debug, PartialEq, Eq, PartialOrd, Ord)]
pub struct DirectoryEntry {
    pub is_file: bool,
    pub filename: String,
    pub path: String,
}

impl Clone for DirectoryEntry {
    fn clone(&self) -> (res: Self)
        ensures
            res == *self,
    {
        DirectoryEntry {
            is_file: self.is_file,
            filename: self.filename.clone(),
            path: self.path.clone(),
        }
    }
}

/// Tells whether `text` ends with `suffix`.
pub open spec fn spec_ends_with(text: Seq<char>, suffix: Seq<char>) -> bool {
    suffix.len() <= text.len() && text.skip(text.len() - suffix.len()) == suffix
}

/// Tells whether `text` ends with `suffix`.
pub fn ends_with(text: &str, suffix: &str) -> (ends: bool)
    ensures
        ends == spec_ends_with(text@, suffix@),
{
    let text_len = text.unicode_len();
    let suffix_len = suffix.unicode_len();
    if suffix_len > text_len {
        return false;
    }
    let offset = text_len - suffix_len;
    let mut index: usize = 0;
    while index < suffix_len
        invariant
            index <= suffix_len,
            text_len == text@.len(),
            suffix_len == suffix@.len(),
            offset == text_len - suffix_len,
            forall|i: int| 0 <= i < index ==> text@[offset + i] == suffix@[i],
        decreases suffix_len - index,
    {
        if text.get_char(offset + index) != suffix.get_char(index) {
            assert(text@.skip(offset as int)[index as int] != suffix@[index as int]);
            return false;
        }
        index += 1;
    }
    assert(text@.skip(offset as int) =~= suffix@);
    true
}

/// Tells whether `text` begins with `prefix`.
pub open spec fn spec_starts_with(text: Seq<char>, prefix: Seq<char>) -> bool {
    prefix.len() <= text.len() && text.take(prefix.len() as int) == prefix
}

/// Tells whether `text` begins with `prefix`.
pub fn starts_with(text: &str, prefix: &str) -> (starts: bool)
    ensures
        starts == spec_starts_with(text@, prefix@),
{
    let text_len = text.unicode_len();
    let prefix_len = prefix.unicode_len();
    if prefix_len > text_len {
        return false;
    }
    let mut index: usize = 0;
    while index < prefix_len
        invariant
            index <= prefix_len <= text_len,
            text_len == text@.len(),
            prefix_len == prefix@.len(),
            forall|i: int| 0 <= i < index ==> text@[i] == prefix@[i],
        decreases prefix_len - index,
    {
        if text.get_char(index) != prefix.get_char(index) {
            assert(text@.take(prefix_len as int)[index as int] != prefix@[index as int]);
            return false;
        }
        index += 1;
    }
    assert(text@.take(prefix_len as int) =~= prefix@);
    true
}

/// The entry itself where a listing shows it: where its name does not begin with a dot.
pub open spec fn pick_visible(entry: DirectoryEntry) -> Option<DirectoryEntry> {
    if entry.spec_is_hidden() {
        None
    } else {
        Some(entry)
    }
}

/// The entries that a listing shows, in their order: those that are not hidden.
pub fn visible_entries(entries: Vec<DirectoryEntry>) -> (visible: Vec<DirectoryEntry>)
    ensures
        visible@ == entries@.filter_map(|entry| pick_visible(entry)),
{
    let ghost all = entries@;
    let mut visible: Vec<DirectoryEntry> = Vec::new();
    for entry in iter: entries.into_iter()
        invariant
            iter.seq() == all,
            visible@ == all.take(iter.index()).filter_map(|entry| pick_visible(entry)),
    {
        proof {
            all.lemma_filter_map_take_succ(|entry| pick_visible(entry), iter.index());
        }
        if !entry.is_hidden() {
            visible.push(entry);
        }
    }
    assert(all.take(all.len() as int) =~= all);
    visible
}

impl DirectoryEntry {
    /// The name of the entry begins with a dot.
    pub open spec fn spec_is_hidden(&self) -> bool {
        spec_starts_with(self.filename@, "."@)
    }

    /// Tells whether the entry is hidden, going by its name.
    pub fn is_hidden(&self) -> (hidden: bool)
        ensures
            hidden == self.spec_is_hidden(),
    {
        starts_with(self.filename.as_str(), ".")
    }

    /// The entry is a file whose name ends like that of a sound file.
    pub open spec fn spec_is_song_file(&self) -> bool {
        self.is_file && (spec_ends_with(self.filename@, ".wav"@) || spec_ends_with(
            self.filename@,
            ".mp3"@,
        ) || spec_ends_with(self.filename@, ".ogg"@))
    }

    /// Tells whether the entry is a sound file, going by its name.
    pub fn is_song_file(&self) -> (is_song: bool)
        ensures
            is_song == self.spec_is_song_file(),
    {
        self.is_file && (ends_with(self.filename.as_str(), ".wav") || ends_with(
            self.filename.as_str(),
            ".mp3",
        ) || ends_with(self.filename.as_str(), ".ogg"))
    }
}

/// Number of characters from the start on in which two texts agree.
pub open spec fn common_prefix_len(a: Seq<char>, b: Seq<char>) -> nat
    decreases a.len(),
{
    if a.len() > 0 && b.len() > 0 && a[0] == b[0] {
        1 + common_prefix_len(a.drop_first(), b.drop_first())
    } else {
        0
    }
}

/// Number of characters from the end on in which two texts agree.
pub open spec fn common_suffix_len(a: Seq<char>, b: Seq<char>) -> nat
    decreases a.len(),
{
    if a.len() > 0 && b.len() > 0 && a.last() == b.last() {
        1 + common_suffix_len(a.drop_last(), b.drop_last())
    } else {
        0
    }
}

/// The shorter of two lengths.
pub open spec fn shorter(a: Seq<char>, b: Seq<char>) -> nat {
    if a.len() <= b.len() {
        a.len()
    } else {
        b.len()
    }
}

/// The beginning that a name shares with the beginning found so far: the name up to the
/// first character in which the two differ; `begin` as it is where they differ in none.
pub open spec fn spec_common_begin(name: Seq<char>, begin: Seq<char>) -> Seq<char> {
    let agree = common_prefix_len(name, begin);
    if agree < shorter(name, begin) {
        name.take(agree as int)
    } else {
        begin
    }
}

/// The end that a name shares with the end found so far: the name from behind the last
/// character, counted from the end, in which the two differ; `end` as it is where they
/// differ in none.
pub open spec fn spec_common_end(name: Seq<char>, end: Seq<char>) -> Seq<char> {
    let agree = common_suffix_len(name, end);
    if agree < shorter(name, end) {
        name.skip(name.len() - agree)
    } else {
        end
    }
}

/// Two texts agree in position `i` for every `i` below their common prefix length, and
/// differ in the position after it where both have one.
proof fn lemma_common_prefix(a: Seq<char>, b: Seq<char>)
    ensures
        common_prefix_len(a, b) <= shorter(a, b),
        forall|i: int| 0 <= i < common_prefix_len(a, b) ==> a[i] == b[i],
        common_prefix_len(a, b) < shorter(a, b) ==> a[common_prefix_len(a, b) as int]
            != b[common_prefix_len(a, b) as int],
    decreases a.len(),
{
    if a.len() > 0 && b.len() > 0 && a[0] == b[0] {
        lemma_common_prefix(a.drop_first(), b.drop_first());
        let rest = common_prefix_len(a.drop_first(), b.drop_first());
        assert forall|i: int| 0 <= i < common_prefix_len(a, b) implies a[i] == b[i] by {
            if i > 0 {
                assert(a.drop_first()[i - 1] == a[i]);
                assert(b.drop_first()[i - 1] == b[i]);
            }
        }
        if rest < shorter(a.drop_first(), b.drop_first()) {
            assert(a.drop_first()[rest as int] == a[rest as int + 1]);
            assert(b.drop_first()[rest as int] == b[rest as int + 1]);
        }
    }
}

/// A count of leading positions in which two texts agree, followed by a difference or
/// the end of one of them, is their common prefix length.
proof fn lemma_common_prefix_is(a: Seq<char>, b: Seq<char>, count: nat)
    requires
        count <= shorter(a, b),
        forall|i: int| 0 <= i < count ==> a[i] == b[i],
        count < shorter(a, b) ==> a[count as int] != b[count as int],
    ensures
        common_prefix_len(a, b) == count,
{
    lemma_common_prefix(a, b);
    let agree = common_prefix_len(a, b);
    if agree < count {
        assert(a[agree as int] == b[agree as int]);
    }
}

/// The character in the `i`-th position from the end of a text.
pub open spec fn from_end(text: Seq<char>, i: int) -> char {
    text[text.len() - 1 - i]
}

/// Two texts agree in the `i`-th position from the end for every `i` below their common
/// suffix length, and differ in the position before where both have one.
proof fn lemma_common_suffix(a: Seq<char>, b: Seq<char>)
    ensures
        common_suffix_len(a, b) <= shorter(a, b),
        forall|i: int|
            0 <= i < common_suffix_len(a, b) ==> #[trigger] from_end(a, i) == from_end(b, i),
        common_suffix_len(a, b) < shorter(a, b) ==> from_end(a, common_suffix_len(a, b) as int)
            != from_end(b, common_suffix_len(a, b) as int),
    decreases a.len(),
{
    if a.len() > 0 && b.len() > 0 && a.last() == b.last() {
        lemma_common_suffix(a.drop_last(), b.drop_last());
        assert forall|i: int| 0 <= i < common_suffix_len(a, b) implies #[trigger] from_end(a, i)
            == from_end(b, i) by {
            if i > 0 {
                assert(from_end(a.drop_last(), i - 1) == from_end(a, i));
                assert(from_end(b.drop_last(), i - 1) == from_end(b, i));
            }
        }
        let rest = common_suffix_len(a.drop_last(), b.drop_last());
        if rest < shorter(a.drop_last(), b.drop_last()) {
            assert(from_end(a.drop_last(), rest as int) == from_end(a, rest as int + 1));
            assert(from_end(b.drop_last(), rest as int) == from_end(b, rest as int + 1));
        }
    }
}

/// A count of trailing positions in which two texts agree, preceded by a difference or
/// the start of one of them, is their common suffix length.
proof fn lemma_common_suffix_is(a: Seq<char>, b: Seq<char>, count: nat)
    requires
        count <= shorter(a, b),
        forall|i: int| 0 <= i < count ==> #[trigger] from_end(a, i) == from_end(b, i),
        count < shorter(a, b) ==> from_end(a, count as int) != from_end(b, count as int),
    ensures
        common_suffix_len(a, b) == count,
{
    lemma_common_suffix(a, b);
    let agree = common_suffix_len(a, b);
    if agree < count {
        assert(from_end(a, agree as int) == from_end(b, agree as int));
    }
}

/// Narrows the beginning and the end that a list of names has in common by one more
/// name.
pub fn get_common_ends_of_strings<'a>(name: &'a str, begin: &'a str, end: &'a str) -> (ends: (
    &'a str,
    &'a str,
))
    ensures
        ends.0@ == spec_common_begin(name@, begin@),
        ends.1@ == spec_common_end(name@, end@),
{
    let name_len = name.unicode_len();
    let begin_len = begin.unicode_len();
    let end_len = end.unicode_len();

    let begin_limit = if name_len <= begin_len {
        name_len
    } else {
        begin_len
    };
    let mut agree: usize = 0;
    while agree < begin_limit && name.get_char(agree) == begin.get_char(agree)
        invariant
            agree <= begin_limit,
            begin_limit == shorter(name@, begin@),
            forall|i: int| 0 <= i < agree ==> name@[i] == begin@[i],
        decreases begin_limit - agree,
    {
        agree += 1;
    }
    proof {
        lemma_common_prefix_is(name@, begin@, agree as nat);
    }
    let new_begin = if agree < begin_limit {
        name.substring_char(0, agree)
    } else {
        begin
    };
    assert(new_begin@ =~= spec_common_begin(name@, begin@));

    let end_limit = if name_len <= end_len {
        name_len
    } else {
        end_len
    };
    let mut behind: usize = 0;
    while behind < end_limit && name.get_char(name_len - 1 - behind) == end.get_char(
        end_len - 1 - behind,
    )
        invariant
            behind <= end_limit,
            end_limit == shorter(name@, end@),
            name_len == name@.len(),
            end_len == end@.len(),
            forall|i: int| 0 <= i < behind ==> #[trigger] from_end(name@, i) == from_end(end@, i),
        decreases end_limit - behind,
    {
        behind += 1;
    }
    proof {
        lemma_common_suffix_is(name@, end@, behind as nat);
    }
    let new_end = if behind < end_limit {
        name.substring_char(name_len - behind, name_len)
    } else {
        end
    };
    assert(new_end@ =~= spec_common_end(name@, end@));
    (new_begin, new_end)
}

/// The texts of a list of names.
pub open spec fn texts(names: Seq<&str>) -> Seq<Seq<char>> {
    names.map_values(|name: &str| name@)
}

/// The beginning and the end that all names of a list have in common, found name by
/// name from the first on; none for an empty list.
pub open spec fn spec_common_ends(names: Seq<Seq<char>>) -> Option<(Seq<char>, Seq<char>)>
    decreases names.len(),
{
    if names.len() == 0 {
        None
    } else if names.len() == 1 {
        Some((names[0], names[0]))
    } else {
        let (begin, end) = spec_common_ends(names.drop_last())->0;
        Some((spec_common_begin(names.last(), begin), spec_common_end(names.last(), end)))
    }
}

/// Finds the beginning and the end that all names of a list have in common.
pub fn get_common_ends<'a>(strings: Vec<&'a str>) -> (ends: Option<(&'a str, &'a str)>)
    ensures
        match ends {
            Some((begin, end)) => spec_common_ends(texts(strings@)) == Some((begin@, end@)),
            None => spec_common_ends(texts(strings@)) is None,
        },
{
    if strings.len() == 0 {
        return None;
    }
    let mut begin: &'a str = strings[0];
    let mut end: &'a str = strings[0];
    let mut index: usize = 1;
    assert(texts(strings@).take(1) =~= seq![strings@[0]@]);
    while index < strings.len()
        invariant
            1 <= index <= strings@.len(),
            spec_common_ends(texts(strings@).take(index as int)) == Some((begin@, end@)),
        decreases strings@.len() - index,
    {
        let narrowed = get_common_ends_of_strings(strings[index], begin, end);
        proof {
            let names = texts(strings@);
            assert(names.take(index + 1).drop_last() =~= names.take(index as int));
            assert(names.take(index + 1).last() == strings@[index as int]@);
        }
        begin = narrowed.0;
        end = narrowed.1;
        index += 1;
    }
    assert(texts(strings@).take(index as int) =~= texts(strings@));
    Some((begin, end))
}

} // verus!
