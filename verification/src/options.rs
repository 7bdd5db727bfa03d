//! Ad hoc `--key=value` options taken from the argument list.

use crate::text::{chars_of, find_from, matches_at, same_text};
use vstd::prelude::*;

verus! {

/// What an argument begins with when it is an option.
pub const OPTION_MARK: &'static str = "--";

/// The sign that separates an option's key from its value.
pub const ASSIGN: char = '=';

/// The part of `s` before its first `mark`, or all of `s` if it holds none.
pub open spec fn before_first(s: Seq<char>, mark: char) -> Seq<char> {
    match s.index_of_first(mark) {
        Some(at) => s.take(at),
        None => s,
    }
}

/// The part of `s` after its first `mark`, if it holds one.
pub open spec fn after_first(s: Seq<char>, mark: char) -> Option<Seq<char>> {
    match s.index_of_first(mark) {
        Some(at) => Some(s.skip(at + 1)),
        None => None,
    }
}

/// The key and value that one argument assigns, if it assigns any.
///
/// An argument is an option when it begins with the option mark and holds an
/// assignment sign. The key is everything before the first sign, the mark
/// included; the value is what stands between the first sign and the second,
/// or the end of the argument.
pub open spec fn option_of(arg: Seq<char>) -> Option<(Seq<char>, Seq<char>)> {
    if OPTION_MARK@.is_prefix_of(arg) {
        match after_first(arg, ASSIGN) {
            Some(rest) => Some((before_first(arg, ASSIGN), before_first(rest, ASSIGN))),
            None => None,
        }
    } else {
        None
    }
}

/// `arg` is an option that assigns to `key`.
pub open spec fn assigns(arg: Seq<char>, key: Seq<char>) -> bool {
    option_of(arg) matches Some(pair) && pair.0 == key
}

/// The options that an argument list assigns. Where a key is assigned more
/// than once, the last assignment stands.
pub open spec fn options_of(args: Seq<Seq<char>>) -> Map<Seq<char>, Seq<char>>
    decreases args.len(),
{
    if args.len() == 0 {
        Map::empty()
    } else {
        let earlier = options_of(args.drop_last());
        match option_of(args.last()) {
            Some((key, value)) => earlier.insert(key, value),
            None => earlier,
        }
    }
}

/// Reads one argument as an option.
pub fn parse_option(arg: &str) -> (parsed: Option<(String, String)>)
    ensures
        match option_of(arg@) {
            Some((key, value)) => parsed matches Some(pair) && pair.0@ == key && pair.1@ == value,
            None => parsed is None,
        },
{
    let chars = chars_of(arg);
    let n = chars.len();
    let mark = chars_of(OPTION_MARK);
    if !matches_at(&chars, &mark, 0) {
        return None;
    }
    assert(chars@.skip(0) =~= chars@);
    match find_from(&chars, ASSIGN, 0) {
        None => None,
        Some(first) => {
            proof {
                chars@.index_of_first_ensures(ASSIGN);
            }
            let second = match find_from(&chars, ASSIGN, first + 1) {
                Some(at) => at,
                None => n,
            };
            proof {
                chars@.skip(first + 1).index_of_first_ensures(ASSIGN);
            }
            let key = String::from_str(arg.substring_char(0, first));
            let value = String::from_str(arg.substring_char(first + 1, second));
            Some((key, value))
        },
    }
}

/// A finite mapping from option keys to option values.
///
/// The entries are kept in the order in which their keys first appeared, and no
/// key is held twice.
#[derive(Debug)]
pub struct Options {
    entries: Vec<(String, String)>,
}

/// No two entries share a key.
spec fn distinct_keys(entries: Seq<(String, String)>) -> bool {
    forall|i: int, j: int|
        0 <= i < j < entries.len() ==> (#[trigger] entries[i]).0@ != (#[trigger] entries[j]).0@
}

/// The entry at `at` holds `key`.
spec fn holds_at(entries: Seq<(String, String)>, key: Seq<char>, at: int) -> bool {
    0 <= at < entries.len() && entries[at].0@ == key
}

/// Some entry holds `key`.
spec fn holds_key(entries: Seq<(String, String)>, key: Seq<char>) -> bool {
    exists|at: int| holds_at(entries, key, at)
}

/// The value of an entry that holds `key`.
spec fn value_of(entries: Seq<(String, String)>, key: Seq<char>) -> Seq<char> {
    entries[choose|at: int| holds_at(entries, key, at)].1@
}

/// The mapping that the entries stand for.
spec fn mapping(entries: Seq<(String, String)>) -> Map<Seq<char>, Seq<char>> {
    Map::new(|key: Seq<char>| holds_key(entries, key), |key: Seq<char>| value_of(entries, key))
}

/// Among entries with distinct keys, an entry's value is the value of its key.
proof fn lemma_value_of_entry(entries: Seq<(String, String)>, at: int)
    requires
        distinct_keys(entries),
        0 <= at < entries.len(),
    ensures
        holds_key(entries, entries[at].0@),
        value_of(entries, entries[at].0@) == entries[at].1@,
{
    assert(holds_at(entries, entries[at].0@, at));
}

/// Putting a value at the entry that holds a key gives the key that value and
/// leaves every other key as it was.
proof fn lemma_entry_replaced(
    entries: Seq<(String, String)>,
    at: int,
    entry: (String, String),
)
    requires
        distinct_keys(entries),
        holds_at(entries, entry.0@, at),
    ensures
        distinct_keys(entries.update(at, entry)),
        mapping(entries.update(at, entry)) == mapping(entries).insert(entry.0@, entry.1@),
{
    let after = entries.update(at, entry);
    assert forall|key: Seq<char>, i: int| holds_at(after, key, i) <==> holds_at(
        entries,
        key,
        i,
    ) by {}
    assert forall|key: Seq<char>| #[trigger] holds_key(after, key) implies value_of(after, key)
        == if key == entry.0@ {
        entry.1@
    } else {
        value_of(entries, key)
    } by {
        let i = choose|i: int| holds_at(after, key, i);
        lemma_value_of_entry(after, i);
        lemma_value_of_entry(entries, i);
    }
}

/// Adding an entry for a key that no entry holds gives the key its value and
/// leaves every other key as it was.
proof fn lemma_entry_added(entries: Seq<(String, String)>, entry: (String, String))
    requires
        distinct_keys(entries),
        !holds_key(entries, entry.0@),
    ensures
        distinct_keys(entries.push(entry)),
        mapping(entries.push(entry)) == mapping(entries).insert(entry.0@, entry.1@),
{
    let after = entries.push(entry);
    let last = entries.len() as int;
    assert(distinct_keys(after)) by {
        assert forall|i: int, j: int| 0 <= i < j < after.len() implies (#[trigger] after[i]).0@ != (
        #[trigger] after[j]).0@ by {
            if j == last {
                assert(!holds_at(entries, entry.0@, i));
            }
        }
    }
    assert forall|key: Seq<char>, i: int| holds_at(after, key, i) <==> holds_at(entries, key, i)
        || (i == last && key == entry.0@) by {}
    assert(holds_at(after, entry.0@, last));
    assert forall|key: Seq<char>| #[trigger] holds_key(after, key) implies value_of(after, key)
        == if key == entry.0@ {
        entry.1@
    } else {
        value_of(entries, key)
    } by {
        let i = choose|i: int| holds_at(after, key, i);
        lemma_value_of_entry(after, i);
        if key != entry.0@ {
            lemma_value_of_entry(entries, i);
        }
    }
    assert(mapping(after) =~= mapping(entries).insert(entry.0@, entry.1@));
}

/// Entries with distinct keys hold as many keys as there are entries.
proof fn lemma_as_many_keys_as_entries(entries: Seq<(String, String)>)
    requires
        distinct_keys(entries),
    ensures
        mapping(entries).dom().finite(),
        mapping(entries).dom().len() == entries.len(),
    decreases entries.len(),
{
    if entries.len() == 0 {
        assert(mapping(entries).dom() =~= Set::<Seq<char>>::empty());
    } else {
        let front = entries.drop_last();
        let entry = entries.last();
        assert(entries =~= front.push(entry));
        assert(!holds_key(front, entry.0@)) by {
            assert forall|i: int| !holds_at(front, entry.0@, i) by {
                if holds_at(front, entry.0@, i) {
                    assert(entries[i].0@ == entries[entries.len() - 1].0@);
                }
            }
        }
        lemma_as_many_keys_as_entries(front);
        lemma_entry_added(front, entry);
    }
}

impl View for Options {
    type V = Map<Seq<char>, Seq<char>>;

    closed spec fn view(&self) -> Map<Seq<char>, Seq<char>> {
        mapping(self.entries@)
    }
}

impl Options {
    #[verifier::type_invariant]
    spec fn well_formed(self) -> bool {
        distinct_keys(self.entries@)
    }

    /// The mapping without any entry.
    pub fn new() -> (options: Options)
        ensures
            options@ == Map::<Seq<char>, Seq<char>>::empty(),
    {
        let options = Options { entries: Vec::new() };
        options
    }

    /// The number of keys that have a value.
    pub fn len(&self) -> (n: usize)
        ensures
            self@.dom().finite(),
            n == self@.len(),
    {
        proof {
            use_type_invariant(self);
            lemma_as_many_keys_as_entries(self.entries@);
        }
        self.entries.len()
    }

    /// Position of the entry that holds `key`, if any does.
    fn position(&self, key: &str) -> (found: Option<usize>)
        ensures
            match found {
                Some(at) => holds_at(self.entries@, key@, at as int),
                None => !holds_key(self.entries@, key@),
            },
    {
        let mut at: usize = 0;
        while at < self.entries.len()
            invariant
                at <= self.entries@.len(),
                forall|j: int| 0 <= j < at ==> !holds_at(self.entries@, key@, j),
            decreases self.entries@.len() - at,
        {
            if same_text(self.entries[at].0.as_str(), key) {
                return Some(at);
            }
            at += 1;
        }
        None
    }

    /// The value that `key` has, if it has one.
    pub fn get(&self, key: &str) -> (value: Option<&String>)
        ensures
            match value {
                Some(text) => self@.contains_key(key@) && self@[key@] == text@,
                None => !self@.contains_key(key@),
            },
    {
        match self.position(key) {
            Some(at) => {
                proof {
                    use_type_invariant(self);
                    lemma_value_of_entry(self.entries@, at as int);
                }
                Some(&self.entries[at].1)
            },
            None => None,
        }
    }

    /// Gives `key` the value `value`, in place of any value it had.
    pub fn insert(&mut self, key: String, value: String)
        ensures
            final(self)@ == old(self)@.insert(key@, value@),
    {
        proof {
            use_type_invariant(&*self);
        }
        let found = self.position(key.as_str());
        let mut entries: Vec<(String, String)> = Vec::new();
        core::mem::swap(&mut self.entries, &mut entries);
        match found {
            Some(at) => {
                proof {
                    lemma_entry_replaced(entries@, at as int, (key, value));
                }
                entries.set(at, (key, value));
            },
            None => {
                proof {
                    lemma_entry_added(entries@, (key, value));
                }
                entries.push((key, value));
            },
        }
        self.entries = entries;
    }
}

} // verus!
