use vstd::prelude::*;

use crate::player::{PlayerInfo, PlayerView, same_location, same_position};

verus! {

/// One entry of a table of players: the key it is filed under, and the record.
pub type EntryView = (Seq<char>, PlayerView);

/// The values of a sequence of keyed player records.
pub open spec fn entries_view(v: Seq<(String, PlayerInfo)>) -> Seq<EntryView> {
    v.map_values(|e: (String, PlayerInfo)| (e.0@, e.1@))
}

/// No key occurs twice.
pub open spec fn keys_unique(s: Seq<EntryView>) -> bool {
    forall|i: int, j: int| 0 <= i < j < s.len() ==> s[i].0 != s[j].0
}

/// The map that a sequence of keyed records builds when each is inserted in turn.
pub open spec fn entry_map(s: Seq<EntryView>) -> Map<Seq<char>, PlayerView>
    decreases s.len(),
{
    if s.len() == 0 {
        Map::empty()
    } else {
        entry_map(s.drop_last()).insert(s.last().0, s.last().1)
    }
}

/// The map `m` after inserting each of the records of `s` in turn, later
/// records replacing earlier ones under the same key.
pub open spec fn merged_map(m: Map<Seq<char>, PlayerView>, s: Seq<EntryView>) -> Map<
    Seq<char>,
    PlayerView,
>
    decreases s.len(),
{
    if s.len() == 0 {
        m
    } else {
        merged_map(m, s.drop_last()).insert(s.last().0, s.last().1)
    }
}

/// What the server kept of a player before a report: the number of rescued
/// Mudokons, the location and the position, or zeros for an unknown player.
pub open spec fn previous_state(m: Map<Seq<char>, PlayerView>, name: Seq<char>) -> (
    u16,
    Seq<u16>,
    Seq<u16>,
) {
    if m.contains_key(name) {
        (m[name].saved_muds, m[name].location, m[name].position)
    } else {
        (0, seq![0u16, 0u16, 0u16], seq![0u16, 0u16])
    }
}

/// Whether a report differs from what the server kept of that player.
pub open spec fn is_change(m: Map<Seq<char>, PlayerView>, info: PlayerView) -> bool {
    let (muds, loc, pos) = previous_state(m, info.name);
    info.position != pos || info.location != loc || info.saved_muds != muds
}

/// Whether a player at `location` is drawn for a viewer at `pos`: both are
/// on the same screen, and the viewer is not on the title screen.
pub open spec fn shares_screen(location: Seq<u16>, pos: Seq<u16>) -> bool {
    location == pos && pos[0] != 0
}

/// The position and name of each record of `s` on the viewer's screen, in order.
pub open spec fn visible_entries(s: Seq<EntryView>, pos: Seq<u16>) -> Seq<(Seq<u16>, Seq<char>)>
    decreases s.len(),
{
    if s.len() == 0 {
        seq![]
    } else {
        let rest = visible_entries(s.drop_last(), pos);
        let p = s.last().1;
        if shares_screen(p.location, pos) {
            rest.push((p.position, p.name))
        } else {
            rest
        }
    }
}

/// The values of a list of (position, name) pairs handed to the renderer.
pub open spec fn marks_view(v: Seq<([u16; 2], String)>) -> Seq<(Seq<u16>, Seq<char>)> {
    v.map_values(|e: ([u16; 2], String)| (e.0@, e.1@))
}

proof fn lemma_entry_map_lookup(s: Seq<EntryView>)
    requires
        keys_unique(s),
    ensures
        forall|i: int|
            0 <= i < s.len() ==> #[trigger] entry_map(s).contains_key(s[i].0) && entry_map(s)[s[i].0]
                == s[i].1,
        forall|k: Seq<char>|
            #[trigger] entry_map(s).contains_key(k) ==> exists|i: int|
                0 <= i < s.len() && s[i].0 == k,
    decreases s.len(),
{
    if s.len() > 0 {
        let t = s.drop_last();
        assert(keys_unique(t));
        lemma_entry_map_lookup(t);
        assert forall|i: int| 0 <= i < s.len() implies #[trigger] entry_map(s).contains_key(s[i].0)
            && entry_map(s)[s[i].0] == s[i].1 by {
            if i < s.len() - 1 {
                assert(t[i] == s[i]);
                assert(entry_map(t).contains_key(t[i].0));
                assert(s[i].0 != s.last().0);
            }
        }
        assert forall|k: Seq<char>| #[trigger] entry_map(s).contains_key(k) implies exists|i: int|
            0 <= i < s.len() && s[i].0 == k by {
            if k == s.last().0 {
                assert(s[s.len() - 1].0 == k);
            } else {
                assert(entry_map(t).contains_key(k));
                let i = choose|i: int| 0 <= i < t.len() && t[i].0 == k;
                assert(s[i].0 == k);
            }
        }
    }
}

proof fn lemma_entry_map_absent(s: Seq<EntryView>, k: Seq<char>)
    requires
        forall|i: int| 0 <= i < s.len() ==> s[i].0 != k,
    ensures
        !entry_map(s).contains_key(k),
    decreases s.len(),
{
    if s.len() > 0 {
        let t = s.drop_last();
        assert forall|i: int| 0 <= i < t.len() implies t[i].0 != k by {
            assert(t[i] == s[i]);
        }
        lemma_entry_map_absent(t, k);
        assert(s[s.len() - 1].0 != k);
    }
}

proof fn lemma_entry_map_push(s: Seq<EntryView>, e: EntryView)
    requires
        keys_unique(s),
        forall|i: int| 0 <= i < s.len() ==> s[i].0 != e.0,
    ensures
        keys_unique(s.push(e)),
        entry_map(s.push(e)) == entry_map(s).insert(e.0, e.1),
{
    assert(s.push(e).drop_last() =~= s);
}

proof fn lemma_entry_map_update(s: Seq<EntryView>, i: int, e: EntryView)
    requires
        keys_unique(s),
        0 <= i < s.len(),
        s[i].0 == e.0,
    ensures
        keys_unique(s.update(i, e)),
        entry_map(s.update(i, e)) == entry_map(s).insert(e.0, e.1),
{
    let u = s.update(i, e);
    assert(keys_unique(u));
    lemma_entry_map_lookup(s);
    lemma_entry_map_lookup(u);
    let lhs = entry_map(u);
    let rhs = entry_map(s).insert(e.0, e.1);
    assert forall|k: Seq<char>| #[trigger] lhs.contains_key(k) implies rhs.contains_key(k) && lhs[k]
        == rhs[k] by {
        let j = choose|j: int| 0 <= j < u.len() && u[j].0 == k;
        assert(lhs[u[j].0] == u[j].1);
        if j != i {
            assert(entry_map(s).contains_key(s[j].0));
        }
    }
    assert forall|k: Seq<char>| #[trigger] rhs.contains_key(k) implies lhs.contains_key(k) by {
        if k != e.0 {
            assert(entry_map(s).contains_key(k));
            let j = choose|j: int| 0 <= j < s.len() && s[j].0 == k;
            assert(u[j] == s[j]);
            assert(lhs.contains_key(u[j].0));
        } else {
            assert(lhs.contains_key(u[i].0));
        }
    }
    assert(lhs =~= rhs);
}

proof fn lemma_entry_map_remove(s: Seq<EntryView>, i: int)
    requires
        keys_unique(s),
        0 <= i < s.len(),
    ensures
        keys_unique(s.remove(i)),
        entry_map(s.remove(i)) == entry_map(s).remove(s[i].0),
{
    let u = s.remove(i);
    assert forall|a: int, b: int| 0 <= a < b < u.len() implies u[a].0 != u[b].0 by {
        let a2 = if a < i {
            a
        } else {
            a + 1
        };
        let b2 = if b < i {
            b
        } else {
            b + 1
        };
        assert(u[a] == s[a2]);
        assert(u[b] == s[b2]);
    }
    assert(keys_unique(u));
    lemma_entry_map_lookup(s);
    lemma_entry_map_lookup(u);
    let lhs = entry_map(u);
    let rhs = entry_map(s).remove(s[i].0);
    assert forall|k: Seq<char>| #[trigger] lhs.contains_key(k) implies rhs.contains_key(k) && lhs[k]
        == rhs[k] by {
        let j = choose|j: int| 0 <= j < u.len() && u[j].0 == k;
        let j2 = if j < i {
            j
        } else {
            j + 1
        };
        assert(u[j] == s[j2]);
        assert(entry_map(s).contains_key(s[j2].0));
        assert(lhs[u[j].0] == u[j].1);
    }
    assert forall|k: Seq<char>| #[trigger] rhs.contains_key(k) implies lhs.contains_key(k) by {
        assert(entry_map(s).contains_key(k));
        let j = choose|j: int| 0 <= j < s.len() && s[j].0 == k;
        assert(j != i);
        let j2 = if j < i {
            j
        } else {
            j - 1
        };
        assert(u[j2] == s[j]);
        assert(lhs.contains_key(u[j2].0));
    }
    assert(lhs =~= rhs);
}

/// A table of players filed under a key (the player's name), with no key twice.
pub struct Roster {
    entries: Vec<(String, PlayerInfo)>,
}

impl View for Roster {
    type V = Seq<EntryView>;

    closed spec fn view(&self) -> Seq<EntryView> {
        entries_view(self.entries@)
    }
}

impl Roster {
    /// The roster's invariant: no key occurs twice.
    pub closed spec fn wf(&self) -> bool {
        keys_unique(self@)
    }

    /// The table as a map from key to player record.
    pub open spec fn to_map(&self) -> Map<Seq<char>, PlayerView> {
        entry_map(self@)
    }

    /// An empty table.
    pub fn new() -> (res: Roster)
        ensures
            res.wf(),
            res@ == Seq::<EntryView>::empty(),
    {
        let res = Roster { entries: Vec::new() };
        assert(res@ =~= Seq::<EntryView>::empty());
        res
    }

    /// The number of players in the table.
    pub fn len(&self) -> (res: usize)
        ensures
            res == self@.len(),
    {
        self.entries.len()
    }

    /// The entries in the table's order.
    pub fn entries(&self) -> (res: &Vec<(String, PlayerInfo)>)
        ensures
            entries_view(res@) == self@,
    {
        &self.entries
    }

    /// Where `key` stands in the table, if it does.
    fn find(&self, key: &String) -> (res: Option<usize>)
        ensures
            res matches Some(i) ==> i < self@.len() && self@[i as int].0 == key@,
            res is None ==> forall|i: int| 0 <= i < self@.len() ==> self@[i].0 != key@,
    {
        let mut i: usize = 0;
        while i < self.entries.len()
            invariant
                i <= self.entries.len(),
                self@.len() == self.entries.len(),
                forall|j: int| 0 <= j < i ==> self@[j].0 != key@,
            decreases self.entries.len() - i,
        {
            if self.entries[i].0 == *key {
                return Some(i);
            }
            i = i + 1;
        }
        None
    }

    /// Whether a player is filed under `key`.
    pub fn contains(&self, key: &String) -> (res: bool)
        requires
            self.wf(),
        ensures
            res == self.to_map().contains_key(key@),
    {
        proof {
            lemma_entry_map_lookup(self@);
        }
        match self.find(key) {
            Some(i) => true,
            None => {
                proof {
                    lemma_entry_map_absent(self@, key@);
                }
                false
            },
        }
    }

    /// The record filed under `key`, if there is one.
    pub fn get(&self, key: &String) -> (res: Option<&PlayerInfo>)
        requires
            self.wf(),
        ensures
            res is Some == self.to_map().contains_key(key@),
            res matches Some(p) ==> p@ == self.to_map()[key@],
    {
        proof {
            lemma_entry_map_lookup(self@);
        }
        match self.find(key) {
            Some(i) => {
                assert(self@[i as int] == (self.entries@[i as int].0@, self.entries@[i as int].1@));
                assert(self.to_map().contains_key(self@[i as int].0));
                Some(&self.entries[i].1)
            },
            None => {
                proof {
                    lemma_entry_map_absent(self@, key@);
                }
                None
            },
        }
    }

    /// Files `info` under `key`, replacing what was filed there; a new key
    /// goes to the end of the table.
    pub fn insert(&mut self, key: String, info: PlayerInfo)
        requires
            old(self).wf(),
        ensures
            final(self).wf(),
            final(self).to_map() == old(self).to_map().insert(key@, info@),
            old(self).to_map().contains_key(key@) ==> final(self)@.len() == old(self)@.len(),
            !old(self).to_map().contains_key(key@) ==> final(self)@ == old(self)@.push(
                (key@, info@),
            ),
    {
        proof {
            lemma_entry_map_lookup(self@);
        }
        let ghost e: EntryView = (key@, info@);
        match self.find(&key) {
            Some(i) => {
                proof {
                    lemma_entry_map_update(self@, i as int, e);
                }
                self.entries[i] = (key, info);
                assert(self@ =~= old(self)@.update(i as int, e));
            },
            None => {
                proof {
                    lemma_entry_map_push(self@, e);
                    lemma_entry_map_absent(self@, e.0);
                }
                self.entries.push((key, info));
                assert(self@ =~= old(self)@.push(e));
            },
        }
    }

    /// Removes the record filed under `key`, if there is one; the other
    /// records keep their order.
    pub fn remove(&mut self, key: &String)
        requires
            old(self).wf(),
        ensures
            final(self).wf(),
            final(self).to_map() == old(self).to_map().remove(key@),
    {
        match self.find(key) {
            Some(i) => {
                proof {
                    lemma_entry_map_remove(self@, i as int);
                }
                self.entries.remove(i);
                assert(self@ =~= old(self)@.remove(i as int));
            },
            None => {
                proof {
                    lemma_entry_map_absent(self@, key@);
                    assert(self.to_map() =~= self.to_map().remove(key@));
                }
            },
        }
    }

    /// Files a player's report under its name when it differs from what the
    /// table holds for that name (zeros for an unknown player), and says
    /// whether it did.
    pub fn record(&mut self, info: PlayerInfo) -> (changed: bool)
        requires
            old(self).wf(),
        ensures
            final(self).wf(),
            changed == is_change(old(self).to_map(), info@),
            changed ==> final(self).to_map() == old(self).to_map().insert(info@.name, info@),
            !changed ==> final(self)@ == old(self)@,
    {
        let (prev_muds, prev_loc, prev_pos): (u16, [u16; 3], [u16; 2]) = match self.get(
            &info.name,
        ) {
            Some(p) => (p.saved_muds, p.location, p.position),
            None => (0, [0, 0, 0], [0, 0]),
        };
        proof {
            let zl: [u16; 3] = [0, 0, 0];
            let zp: [u16; 2] = [0, 0];
            assert(zl@ =~= seq![0u16, 0u16, 0u16]);
            assert(zp@ =~= seq![0u16, 0u16]);
        }
        let changed = !same_position(&info.position, &prev_pos) || !same_location(
            &info.location,
            &prev_loc,
        ) || info.saved_muds != prev_muds;
        if changed {
            let key = info.name.clone();
            self.insert(key, info);
        }
        changed
    }

    /// Files each received record in turn under its key, later ones
    /// replacing earlier ones.
    pub fn merge(&mut self, received: &Vec<(String, PlayerInfo)>)
        requires
            old(self).wf(),
        ensures
            final(self).wf(),
            final(self).to_map() == merged_map(old(self).to_map(), entries_view(received@)),
    {
        let ghost start = self.to_map();
        let ghost rv = entries_view(received@);
        let mut i: usize = 0;
        while i < received.len()
            invariant
                i <= received.len(),
                rv == entries_view(received@),
                self.wf(),
                self.to_map() == merged_map(start, rv.take(i as int)),
            decreases received.len() - i,
        {
            let key = received[i].0.clone();
            let info = received[i].1.clone();
            proof {
                assert(rv.take(i + 1).drop_last() =~= rv.take(i as int));
                assert(rv[i as int] == (received@[i as int].0@, received@[i as int].1@));
            }
            self.insert(key, info);
            i = i + 1;
        }
        assert(rv.take(received.len() as int) =~= rv);
    }

    /// The position and name of each player on the viewer's screen, in the
    /// table's order; none while the viewer is on the title screen.
    pub fn visible_from(&self, pos: &[u16; 3]) -> (res: Vec<([u16; 2], String)>)
        ensures
            marks_view(res@) == visible_entries(self@, pos@),
    {
        let mut res: Vec<([u16; 2], String)> = Vec::new();
        let mut i: usize = 0;
        while i < self.entries.len()
            invariant
                i <= self.entries.len(),
                self@.len() == self.entries.len(),
                marks_view(res@) == visible_entries(self@.take(i as int), pos@),
            decreases self.entries.len() - i,
        {
            let p = &self.entries[i].1;
            proof {
                assert(self@.take(i + 1).drop_last() =~= self@.take(i as int));
                assert(self@[i as int] == (self.entries@[i as int].0@, self.entries@[i as int].1@));
            }
            if same_location(&p.location, pos) && pos[0] != 0 {
                let ghost before = res@;
                res.push((p.position, p.name.clone()));
                assert(marks_view(res@) =~= marks_view(before).push((p.position@, p.name@)));
            }
            i = i + 1;
        }
        assert(self@.take(self@.len() as int) =~= self@);
        res
    }
}

/// A mark that the record at `j` of `s` gives to a viewer at `pos`: the
/// record's whole location (level, path, camera) equals the viewer's, the
/// viewer is not on the title screen (level 0), and the mark is the
/// record's position and name.
pub open spec fn mark_of_record(s: Seq<EntryView>, j: int, pos: Seq<u16>, mark: (Seq<u16>, Seq<char>)) -> bool {
    &&& 0 <= j < s.len()
    &&& s[j].1.location =~= pos
    &&& pos[0] != 0
    &&& mark == (s[j].1.position, s[j].1.name)
}

proof fn lemma_mark_source(s: Seq<EntryView>, pos: Seq<u16>, i: int) -> (j: int)
    requires
        0 <= i < visible_entries(s, pos).len(),
    ensures
        mark_of_record(s, j, pos, visible_entries(s, pos)[i]),
    decreases s.len(),
{
    let t = s.drop_last();
    let v = visible_entries(t, pos);
    if i < v.len() {
        let j = lemma_mark_source(t, pos, i);
        assert(s[j] == t[j]);
        j
    } else {
        s.len() - 1
    }
}

proof fn lemma_record_mark(s: Seq<EntryView>, pos: Seq<u16>, j: int) -> (i: int)
    requires
        0 <= j < s.len(),
        s[j].1.location =~= pos,
        pos[0] != 0,
    ensures
        0 <= i < visible_entries(s, pos).len(),
        mark_of_record(s, j, pos, visible_entries(s, pos)[i]),
    decreases s.len(),
{
    let t = s.drop_last();
    let v = visible_entries(t, pos);
    if j < s.len() - 1 {
        assert(t[j] == s[j]);
        lemma_record_mark(t, pos, j)
    } else {
        v.len() as int
    }
}

/// The overlay draws exactly the players in the viewer's room: every mark
/// is the position and name of a record whose whole location (level, path
/// and camera) equals the viewer's, away from the title screen (level 0);
/// and every such record is drawn.
pub proof fn drawn_players_are_in_the_viewers_room(s: Seq<EntryView>, pos: Seq<u16>)
    ensures
        forall|i: int|
            #![trigger visible_entries(s, pos)[i]]
            0 <= i < visible_entries(s, pos).len() ==> exists|j: int|
                #![trigger s[j]]
                mark_of_record(s, j, pos, visible_entries(s, pos)[i]),
        forall|j: int|
            #![trigger s[j]]
            0 <= j < s.len() && s[j].1.location =~= pos && pos[0] != 0 ==> exists|i: int|
                #![trigger visible_entries(s, pos)[i]]
                0 <= i < visible_entries(s, pos).len() && mark_of_record(
                    s,
                    j,
                    pos,
                    visible_entries(s, pos)[i],
                ),
{
    assert forall|i: int|
        #![trigger visible_entries(s, pos)[i]]
        0 <= i < visible_entries(s, pos).len() implies exists|j: int|
        #![trigger s[j]]
        mark_of_record(s, j, pos, visible_entries(s, pos)[i]) by {
        let j = lemma_mark_source(s, pos, i);
        let _ = s[j];
    }
    assert forall|j: int|
        #![trigger s[j]]
        0 <= j < s.len() && s[j].1.location =~= pos && pos[0] != 0 implies exists|i: int|
        #![trigger visible_entries(s, pos)[i]]
        0 <= i < visible_entries(s, pos).len() && mark_of_record(
            s,
            j,
            pos,
            visible_entries(s, pos)[i],
        ) by {
        let i = lemma_record_mark(s, pos, j);
        let _ = visible_entries(s, pos)[i];
    }
}

} // verus!
