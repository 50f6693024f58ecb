//! A table of scores by name, and counting words with it.
//!
//! The table maps a string to a number and holds no name twice. It is a list
//! that is searched from the front, not a hash map: of a hash map keyed by
//! strings Verus knows nothing that a proof could start from.
use crate::sequences::{lemma_occurrences_bound, lemma_occurrences_push, occurrences};
use vstd::prelude::*;
use vstd::string::*;

verus! {

/// The map that a list of entries stands for. Where a name occurs more than
/// once, the last entry for it counts.
pub open spec fn table_of(entries: Seq<(String, i32)>) -> Map<Seq<char>, i32>
    decreases entries.len(),
{
    if entries.len() == 0 {
        Map::empty()
    } else {
        table_of(entries.drop_last()).insert(entries.last().0@, entries.last().1)
    }
}

/// No two entries have the same name.
pub open spec fn distinct_names(entries: Seq<(String, i32)>) -> bool {
    forall|i: int, j: int|
        0 <= i < j < entries.len() ==> (#[trigger] entries[i]).0@ != (#[trigger] entries[j]).0@
}

/// A name is in the map exactly if an entry has it.
pub proof fn lemma_table_names(entries: Seq<(String, i32)>, name: Seq<char>)
    ensures
        table_of(entries).contains_key(name) <==> exists|i: int|
            0 <= i < entries.len() && (#[trigger] entries[i]).0@ == name,
    decreases entries.len(),
{
    if entries.len() > 0 {
        let front = entries.drop_last();
        lemma_table_names(front, name);
        if table_of(entries).contains_key(name) {
            if entries.last().0@ == name {
                assert(entries[entries.len() - 1].0@ == name);
            } else {
                let i = choose|i: int| 0 <= i < front.len() && (#[trigger] front[i]).0@ == name;
                assert(entries[i].0@ == name);
            }
        }
        if exists|i: int| 0 <= i < entries.len() && (#[trigger] entries[i]).0@ == name {
            let i = choose|i: int| 0 <= i < entries.len() && (#[trigger] entries[i]).0@ == name;
            if i < front.len() {
                assert(front[i].0@ == name);
            }
        }
    }
}

/// Among entries with distinct names, the map gives each name the number of
/// its entry.
pub proof fn lemma_table_lookup(entries: Seq<(String, i32)>, i: int)
    requires
        distinct_names(entries),
        0 <= i < entries.len(),
    ensures
        table_of(entries).contains_key(entries[i].0@),
        table_of(entries)[entries[i].0@] == entries[i].1,
    decreases entries.len(),
{
    let front = entries.drop_last();
    if i < entries.len() - 1 {
        assert(distinct_names(front)) by {
            assert forall|a: int, b: int| 0 <= a < b < front.len() implies (#[trigger] front[a]).0@
                != (#[trigger] front[b]).0@ by {
                assert(front[a] == entries[a] && front[b] == entries[b]);
            }
        }
        lemma_table_lookup(front, i);
        assert(front[i] == entries[i]);
        assert(entries[i].0@ != entries[entries.len() - 1].0@);
    }
}

/// Changing the number of one entry changes the map at its name and nowhere
/// else.
pub proof fn lemma_table_update(entries: Seq<(String, i32)>, i: int, entry: (String, i32))
    requires
        distinct_names(entries),
        0 <= i < entries.len(),
        entry.0@ == entries[i].0@,
    ensures
        distinct_names(entries.update(i, entry)),
        table_of(entries.update(i, entry)) == table_of(entries).insert(entry.0@, entry.1),
    decreases entries.len(),
{
    let updated = entries.update(i, entry);
    assert(distinct_names(updated)) by {
        assert forall|a: int, b: int| 0 <= a < b < updated.len() implies (#[trigger] updated[a]).0@
            != (#[trigger] updated[b]).0@ by {
            assert(entries[a].0@ != entries[b].0@);
        }
    }
    let front = entries.drop_last();
    if i == entries.len() - 1 {
        assert(updated.drop_last() =~= front);
        assert(table_of(updated) =~= table_of(entries).insert(entry.0@, entry.1));
    } else {
        assert(distinct_names(front)) by {
            assert forall|a: int, b: int| 0 <= a < b < front.len() implies (#[trigger] front[a]).0@
                != (#[trigger] front[b]).0@ by {
                assert(front[a] == entries[a] && front[b] == entries[b]);
            }
        }
        lemma_table_update(front, i, entry);
        assert(updated.drop_last() =~= front.update(i, entry));
        assert(updated.last() == entries.last());
        assert(entries[i].0@ != entries[entries.len() - 1].0@);
        assert(table_of(updated) =~= table_of(entries).insert(entry.0@, entry.1));
    }
}

/// A table of scores by name.
pub struct Scores {
    entries: Vec<(String, i32)>,
}

impl View for Scores {
    type V = Map<Seq<char>, i32>;

    closed spec fn view(&self) -> Map<Seq<char>, i32> {
        table_of(self.entries@)
    }
}

impl Scores {
    /// The table holds no name twice.
    pub closed spec fn wf(&self) -> bool {
        distinct_names(self.entries@)
    }

    /// A table without entries.
    pub fn new() -> (scores: Scores)
        ensures
            scores.wf(),
            scores@ == Map::<Seq<char>, i32>::empty(),
    {
        Scores { entries: Vec::new() }
    }

    /// The place of the entry for `name`, if there is one.
    fn position(&self, name: &String) -> (place: Option<usize>)
        ensures
            match place {
                Some(i) => i < self.entries@.len() && self.entries@[i as int].0@ == name@,
                None => forall|i: int|
                    0 <= i < self.entries@.len() ==> (#[trigger] self.entries@[i]).0@ != name@,
            },
    {
        let mut i: usize = 0;
        while i < self.entries.len()
            invariant
                i <= self.entries@.len(),
                forall|j: int| 0 <= j < i ==> (#[trigger] self.entries@[j]).0@ != name@,
            decreases self.entries@.len() - i,
        {
            if self.entries[i].0 == *name {
                return Some(i);
            }
            i += 1;
        }
        None
    }

    /// The score that the table holds for `name`, if it holds one.
    pub fn get(&self, name: &String) -> (score: Option<i32>)
        requires
            self.wf(),
        ensures
            score == if self@.contains_key(name@) {
                Some(self@[name@])
            } else {
                None
            },
    {
        proof {
            lemma_table_names(self.entries@, name@);
        }
        match self.position(name) {
            Some(i) => {
                proof {
                    lemma_table_lookup(self.entries@, i as int);
                }
                Some(self.entries[i].1)
            },
            None => None,
        }
    }

    /// Sets the score for `name` to `score`, whether or not the table held
    /// one, and returns the score that it held before.
    pub fn insert(&mut self, name: String, score: i32) -> (before: Option<i32>)
        requires
            old(self).wf(),
        ensures
            final(self).wf(),
            final(self)@ == old(self)@.insert(name@, score),
            before == if old(self)@.contains_key(name@) {
                Some(old(self)@[name@])
            } else {
                None
            },
    {
        proof {
            lemma_table_names(self.entries@, name@);
        }
        match self.position(&name) {
            Some(i) => {
                proof {
                    lemma_table_lookup(self.entries@, i as int);
                    lemma_table_update(self.entries@, i as int, (name, score));
                }
                let before = self.entries[i].1;
                self.entries[i] = (name, score);
                Some(before)
            },
            None => {
                proof {
                    let pushed = self.entries@.push((name, score));
                    assert(pushed.drop_last() =~= self.entries@);
                    assert(distinct_names(pushed));
                }
                self.entries.push((name, score));
                None
            },
        }
    }

    /// Gives `name` the score `score` unless the table holds a score for it
    /// already, and returns the score that it holds afterwards.
    pub fn or_insert(&mut self, name: String, score: i32) -> (held: i32)
        requires
            old(self).wf(),
        ensures
            final(self).wf(),
            final(self)@ == if old(self)@.contains_key(name@) {
                old(self)@
            } else {
                old(self)@.insert(name@, score)
            },
            held == final(self)@[name@],
    {
        match self.get(&name) {
            Some(held) => held,
            None => {
                self.insert(name, score);
                score
            },
        }
    }

    /// The entries of the table: every name of the table is listed once, with
    /// its score.
    pub fn entries(&self) -> (listed: &Vec<(String, i32)>)
        requires
            self.wf(),
        ensures
            distinct_names(listed@),
            table_of(listed@) == self@,
    {
        &self.entries
    }
}

/// Every word of `words` is in `counts`, with the number of times that it
/// occurs in `words`, and nothing else is.
pub open spec fn counts_words(counts: Map<Seq<char>, i32>, words: Seq<Seq<char>>) -> bool {
    forall|word: Seq<char>|
        {
            &&& #[trigger] counts.contains_key(word) <==> occurrences(words, word) > 0
            &&& counts.contains_key(word) ==> counts[word] == occurrences(words, word)
        }
}

/// The texts of a list of strings.
pub open spec fn texts(words: Seq<String>) -> Seq<Seq<char>> {
    words.map_values(|word: String| word@)
}

/// Counts how often each word occurs in `words`: every count starts at 0 when
/// its word first comes up, and goes up by one each time the word does.
pub fn update_value_based_on_old_value(words: &Vec<String>) -> (map: Scores)
    requires
        words@.len() <= i32::MAX,
    ensures
        map.wf(),
        counts_words(map@, texts(words@)),
{
    let mut map = Scores::new();
    let mut n: usize = 0;
    while n < words.len()
        invariant
            n <= words@.len(),
            words@.len() <= i32::MAX,
            map.wf(),
            counts_words(map@, texts(words@).take(n as int)),
        decreases words@.len() - n,
    {
        let word = &words[n];
        let ghost seen = texts(words@).take(n as int);
        let ghost before = map@;
        let count = map.or_insert(word.clone(), 0);
        proof {
            assert(texts(words@).take(n + 1) =~= seen.push(word@));
            lemma_occurrences_bound(seen, word@);
            assert(before.contains_key(word@) <==> occurrences(seen, word@) > 0);
        }
        map.insert(word.clone(), count + 1);
        proof {
            assert forall|other: Seq<char>|
                {
                    &&& #[trigger] map@.contains_key(other) <==> occurrences(
                        seen.push(word@),
                        other,
                    ) > 0
                    &&& map@.contains_key(other) ==> map@[other] == occurrences(
                        seen.push(word@),
                        other,
                    )
                } by {
                lemma_occurrences_push(seen, word@, other);
                assert(before.contains_key(other) <==> occurrences(seen, other) > 0);
            }
        }
        n += 1;
    }
    proof {
        assert(texts(words@).take(n as int) =~= texts(words@));
    }
    map
}

/// The pairs that two lists make when they are walked side by side: the first
/// of each, the second of each, and so on until one of them ends.
pub open spec fn zipped(teams: Seq<String>, initial_scores: Seq<i32>) -> Seq<(String, i32)> {
    Seq::new(
        if teams.len() <= initial_scores.len() {
            teams.len()
        } else {
            initial_scores.len()
        },
        |i: int| (teams[i], initial_scores[i]),
    )
}

/// Collects a table from a list of names and a list of scores, walked side by
/// side. Where a name comes up more than once, its last score counts.
pub fn create_hashmap_with_collect(teams: &Vec<String>, initial_scores: &Vec<i32>) -> (scores:
    Scores)
    ensures
        scores.wf(),
        scores@ == table_of(zipped(teams@, initial_scores@)),
{
    let mut scores = Scores::new();
    let ghost pairs = zipped(teams@, initial_scores@);
    let mut n: usize = 0;
    while n < teams.len() && n < initial_scores.len()
        invariant
            n <= pairs.len(),
            pairs == zipped(teams@, initial_scores@),
            scores.wf(),
            scores@ == table_of(pairs.take(n as int)),
        decreases pairs.len() - n,
    {
        proof {
            assert(pairs.take(n + 1).drop_last() =~= pairs.take(n as int));
            assert(pairs.take(n + 1).last() == (teams@[n as int], initial_scores@[n as int]));
        }
        scores.insert(teams[n].clone(), initial_scores[n]);
        n += 1;
    }
    proof {
        assert(pairs.take(n as int) =~= pairs);
    }
    scores
}

/// The names of the two teams differ.
proof fn lemma_two_names()
    ensures
        "Blue"@ != "Yellow"@,
{
    reveal_strlit("Blue");
    reveal_strlit("Yellow");
    assert("Blue"@.len() == 4);
    assert("Yellow"@.len() == 6);
}

/// The scores of the two teams that the examples below start out with.
pub open spec fn two_teams() -> Map<Seq<char>, i32> {
    Map::<Seq<char>, i32>::empty().insert("Blue"@, 10).insert("Yellow"@, 50)
}

/// Makes a table and puts the scores of two teams into it.
pub fn create_new_hashmap() -> (scores: Scores)
    ensures
        scores.wf(),
        scores@ == two_teams(),
{
    let mut scores = Scores::new();

    scores.insert(String::from_str("Blue"), 10);
    scores.insert(String::from_str("Yellow"), 50);

    scores
}

/// Looks up the score of the Blue team in the table of the two teams.
pub fn accessing_hashmap_values() -> (score: Option<i32>)
    ensures
        score == Some(10i32),
{
    let mut scores = Scores::new();

    scores.insert(String::from_str("Blue"), 10);
    scores.insert(String::from_str("Yellow"), 50);

    let team_name = String::from_str("Blue");
    proof {
        lemma_two_names();
    }
    scores.get(&team_name)
}

/// Puts a score in for a team twice: the second score replaces the first.
pub fn overwriting_value() -> (scores: Scores)
    ensures
        scores.wf(),
        scores@ == Map::<Seq<char>, i32>::empty().insert("Blue"@, 25),
{
    let mut scores = Scores::new();

    scores.insert(String::from_str("Blue"), 10);
    scores.insert(String::from_str("Blue"), 25);

    proof {
        assert(scores@ =~= Map::<Seq<char>, i32>::empty().insert("Blue"@, 25));
    }
    scores
}

/// Puts a score in for two teams only if they have none: the team without a
/// score gets one, and the team with a score keeps it.
pub fn insert_if_key_not_exist() -> (scores: Scores)
    ensures
        scores.wf(),
        scores@ == two_teams(),
{
    let mut scores = Scores::new();
    scores.insert(String::from_str("Blue"), 10);

    proof {
        lemma_two_names();
    }
    scores.or_insert(String::from_str("Yellow"), 50);
    scores.or_insert(String::from_str("Blue"), 50);

    scores
}

} // verus!
