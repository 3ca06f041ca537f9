use vstd::prelude::*;

use crate::player::{
    PlayerInfo,
    relative_position,
    same_location,
    same_position,
    spec_relative_position,
};
use crate::roster::{
    EntryView,
    Roster,
    entries_view,
    entry_map,
    marks_view,
    merged_map,
    visible_entries,
};
use crate::text::{announcement_text, spec_announcement_text};
use crate::player::PlayerView;
use crate::wire::{WireShape, WireValue, bincode_value, reads_back};

verus! {

/// What the client last read from the game about its own player, or last sent.
pub struct Sighting {
    pub saved_muds: u16,
    pub location: Seq<u16>,
    pub position: Seq<u16>,
}

/// Whether a new reading is sent to the server: the player moved to another
/// screen or within the screen, or rescued Mudokons while not at the
/// screen's corner.
pub open spec fn reports(last: Sighting, now: Sighting) -> bool {
    ||| now.position != seq![0u16, 0u16] && last.saved_muds != now.saved_muds
    ||| last.location != now.location
    ||| last.position != now.position
}

/// What the client does with one reading from the game.
#[derive(Debug, PartialEq, Eq)]
pub enum Observation {
    /// The game shows its title screen, where the position cannot be read;
    /// the client stops.
    TitleScreen,
    /// Nothing worth sending changed.
    Unchanged,
    /// This report goes to the server.
    Report(PlayerInfo),
}

/// How many frames an announcement stays on the overlay.
pub const ANNOUNCEMENT_FRAMES: u32 = 20;

/// Where on the overlay the announcement is drawn.
pub open spec fn announcement_spot() -> Seq<u16> {
    seq![15u16, 45u16]
}

/// The announcement counter after `k` frames.
pub open spec fn counter_after_frames(c: nat, k: nat) -> nat
    decreases k,
{
    if k == 0 {
        c
    } else if c == 0 {
        0
    } else {
        counter_after_frames((c - 1) as nat, (k - 1) as nat)
    }
}

/// What the overlay shows in one frame: the players on the viewer's screen,
/// then the announcement while its counter runs.
pub open spec fn frame_marks(
    players: Seq<EntryView>,
    pos: Seq<u16>,
    announcement: Seq<char>,
    counter: nat,
) -> Seq<(Seq<u16>, Seq<char>)> {
    let marks = visible_entries(players, pos);
    if counter > 0 {
        marks.push((announcement_spot(), announcement))
    } else {
        marks
    }
}

/// The state of the client between two ticks of its main loop.
pub struct ClientTracker {
    previously_muds: u16,
    prevpos: [u16; 3],
    prevhero: [u16; 2],
    players: Roster,
    announcement: String,
    announcer_counter: u32,
}

impl ClientTracker {
    /// The invariant: the table of players is well formed and the counter
    /// does not exceed the announcement's length.
    pub closed spec fn wf(&self) -> bool {
        self.players.wf() && self.announcer_counter <= ANNOUNCEMENT_FRAMES
    }

    /// What was last sent about the client's own player.
    pub closed spec fn last(&self) -> Sighting {
        Sighting {
            saved_muds: self.previously_muds,
            location: self.prevpos@,
            position: self.prevhero@,
        }
    }

    /// The other players, as last received from the server.
    pub closed spec fn players_view(&self) -> Seq<EntryView> {
        self.players@
    }

    /// The last announcement.
    pub closed spec fn announcement_view(&self) -> Seq<char> {
        self.announcement@
    }

    /// How many more frames show the announcement.
    pub closed spec fn counter(&self) -> nat {
        self.announcer_counter as nat
    }

    /// The state when the client starts: nothing sent, nobody known, no
    /// announcement.
    pub fn new() -> (res: ClientTracker)
        ensures
            res.wf(),
            res.last() == (Sighting {
                saved_muds: 0,
                location: seq![0u16, 0u16, 0u16],
                position: seq![0u16, 0u16],
            }),
            res.players_view() == Seq::<EntryView>::empty(),
            res.announcement_view() == Seq::<char>::empty(),
            res.counter() == 0,
    {
        let res = ClientTracker {
            previously_muds: 0,
            prevpos: [0, 0, 0],
            prevhero: [0, 0],
            players: Roster::new(),
            announcement: String::new(),
            announcer_counter: 0,
        };
        assert(res.prevpos@ =~= seq![0u16, 0u16, 0u16]);
        assert(res.prevhero@ =~= seq![0u16, 0u16]);
        res
    }

    /// The other players, as last received from the server.
    pub fn players(&self) -> (res: &Roster)
        ensures
            res@ == self.players_view(),
            self.wf() ==> res.wf(),
    {
        &self.players
    }

    /// Decides what to do with one reading of the game: the client's name,
    /// the number of rescued Mudokons, the location (level, path, camera)
    /// and the absolute coordinates of the player.
    pub fn observe(
        &mut self,
        name: &String,
        saved_muds: u16,
        pos: [u16; 3],
        xpos: u16,
        ypos: u16,
    ) -> (res: Observation)
        requires
            old(self).wf(),
        ensures
            final(self).wf(),
            final(self).players_view() == old(self).players_view(),
            final(self).announcement_view() == old(self).announcement_view(),
            final(self).counter() == old(self).counter(),
            ({
                let now = Sighting {
                    saved_muds,
                    location: pos@,
                    position: spec_relative_position(xpos, ypos),
                };
                if pos[0] == 0 {
                    res is TitleScreen && final(self).last() == old(self).last()
                } else if reports(old(self).last(), now) {
                    &&& res matches Observation::Report(p) && p@.name == name@ && p@.saved_muds
                        == saved_muds && p@.location == pos@ && p@.position == now.position
                    &&& final(self).last() == now
                } else {
                    res is Unchanged && final(self).last() == old(self).last()
                }
            }),
    {
        if pos[0] == 0 {
            return Observation::TitleScreen;
        }
        let relativexy = relative_position(xpos, ypos);
        let zero: [u16; 2] = [0, 0];
        proof {
            assert(zero@ =~= seq![0u16, 0u16]);
        }
        let changed = !same_position(&relativexy, &zero) && self.previously_muds != saved_muds
            || !same_location(&self.prevpos, &pos) || !same_position(&self.prevhero, &relativexy);
        if changed {
            self.prevpos = pos;
            self.previously_muds = saved_muds;
            self.prevhero = relativexy;
            Observation::Report(
                PlayerInfo {
                    name: name.clone(),
                    saved_muds: saved_muds,
                    location: pos,
                    position: relativexy,
                },
            )
        } else {
            Observation::Unchanged
        }
    }

    /// Takes in an announcement from the server: it is shown for the next
    /// frames, and its text is returned for the console.
    pub fn on_announcement(&mut self, inner: &String) -> (res: String)
        requires
            old(self).wf(),
        ensures
            final(self).wf(),
            res@ == spec_announcement_text(inner@),
            final(self).announcement_view() == res@,
            final(self).counter() == ANNOUNCEMENT_FRAMES,
            final(self).last() == old(self).last(),
            final(self).players_view() == old(self).players_view(),
    {
        let msg = announcement_text(inner.as_str());
        self.announcement = msg.clone();
        self.announcer_counter = ANNOUNCEMENT_FRAMES;
        msg
    }

    /// Takes in the table of players the server sent: each entry is filed
    /// under its key, replacing what was there.
    pub fn on_player_states(&mut self, received: &Vec<(String, PlayerInfo)>)
        requires
            old(self).wf(),
        ensures
            final(self).wf(),
            entry_map(final(self).players_view()) == merged_map(
                entry_map(old(self).players_view()),
                entries_view(received@),
            ),
            final(self).last() == old(self).last(),
            final(self).announcement_view() == old(self).announcement_view(),
            final(self).counter() == old(self).counter(),
    {
        self.players.merge(received);
    }

    /// What the overlay draws this frame, for a viewer at `pos`: the players
    /// on the same screen, then the announcement while it lasts; each frame
    /// uses up one frame of the announcement.
    pub fn frame(&mut self, pos: &[u16; 3]) -> (res: Vec<([u16; 2], String)>)
        requires
            old(self).wf(),
        ensures
            final(self).wf(),
            marks_view(res@) == frame_marks(
                old(self).players_view(),
                pos@,
                old(self).announcement_view(),
                old(self).counter(),
            ),
            final(self).counter() == counter_after_frames(old(self).counter(), 1),
            final(self).last() == old(self).last(),
            final(self).players_view() == old(self).players_view(),
            final(self).announcement_view() == old(self).announcement_view(),
    {
        let mut marks = self.players.visible_from(pos);
        if self.announcer_counter != 0 {
            let ghost before = marks@;
            let spot: [u16; 2] = [15, 45];
            marks.push((spot, self.announcement.clone()));
            self.announcer_counter = self.announcer_counter - 1;
            proof {
                assert(spot@ =~= announcement_spot());
                assert(marks_view(marks@) =~= marks_view(before).push(
                    (announcement_spot(), self.announcement@),
                ));
                assert(counter_after_frames((self.announcer_counter + 1) as nat, 1) == counter_after_frames(
                    self.announcer_counter as nat,
                    0,
                ));
            }
        }
        marks
    }
}

proof fn lemma_merged_map_union(m: Map<Seq<char>, PlayerView>, s: Seq<EntryView>)
    ensures
        merged_map(m, s) == m.union_prefer_right(entry_map(s)),
    decreases s.len(),
{
    if s.len() == 0 {
        assert(m.union_prefer_right(entry_map(s)) =~= m);
    } else {
        lemma_merged_map_union(m, s.drop_last());
        assert(merged_map(m, s) =~= m.union_prefer_right(entry_map(s)));
    }
}

/// A client reads back the table that the server broadcast, whatever
/// follows its bytes, and after merging it holds the server's record for
/// every player listed, keeping the other players it knew.
pub proof fn client_holds_what_server_sent(
    m: Map<Seq<char>, PlayerView>,
    b: Seq<u8>,
    rest: Seq<u8>,
    s: Seq<EntryView>,
)
    requires
        reads_back(WireShape::Entries, b, WireValue::Entries(s)),
    ensures
        bincode_value(WireShape::Entries, b + rest) == Some(WireValue::Entries(s)),
        merged_map(m, s) == m.union_prefer_right(entry_map(s)),
{
    assert(bincode_value(WireShape::Entries, b + rest) == Some(WireValue::Entries(s)));
    lemma_merged_map_union(m, s);
}

/// Any change worth telling the other players is reported: a move inside
/// the screen (in x, in y or both), a move to another screen (any of level,
/// path, camera), or a rescue while not at the screen's corner.
pub proof fn every_change_is_reported(last: Sighting, now: Sighting)
    requires
        last.position.len() == 2,
        now.position.len() == 2,
        last.location.len() == 3,
        now.location.len() == 3,
    ensures
        last.position[0] != now.position[0] ==> reports(last, now),
        last.position[1] != now.position[1] ==> reports(last, now),
        last.location[0] != now.location[0] ==> reports(last, now),
        last.location[1] != now.location[1] ==> reports(last, now),
        last.location[2] != now.location[2] ==> reports(last, now),
        last.saved_muds != now.saved_muds && (now.position[0] != 0 || now.position[1] != 0)
            ==> reports(last, now),
        last.saved_muds == now.saved_muds && last.location =~= now.location && last.position
            =~= now.position ==> !reports(last, now),
{
    if now.position[0] != 0 || now.position[1] != 0 {
        assert(now.position != seq![0u16, 0u16]) by {
            if now.position == seq![0u16, 0u16] {
                assert(now.position[0] == 0 && now.position[1] == 0);
            }
        }
    }
}

/// A frame always starts with exactly the players on the viewer's screen,
/// whatever the announcement's counter; while the counter runs, the
/// announcement is one more mark after them, and otherwise there is none.
pub proof fn frame_draws_players_then_announcement(
    players: Seq<EntryView>,
    pos: Seq<u16>,
    announcement: Seq<char>,
    counter: nat,
)
    ensures
        frame_marks(players, pos, announcement, counter).len() == visible_entries(players, pos).len()
            + if counter > 0 {
            1int
        } else {
            0int
        },
        forall|i: int|
            #![trigger frame_marks(players, pos, announcement, counter)[i]]
            0 <= i < visible_entries(players, pos).len() ==> frame_marks(
                players,
                pos,
                announcement,
                counter,
            )[i] == visible_entries(players, pos)[i],
        counter > 0 ==> frame_marks(players, pos, announcement, counter)[visible_entries(
            players,
            pos,
        ).len() as int] == (announcement_spot(), announcement),
{
}

/// A reading is reported at most once: once the client has handled a
/// reading away from the title screen, the same reading again is not sent.
pub proof fn reading_reported_once(last: Sighting, now: Sighting)
    ensures
        ({
            let next = if reports(last, now) {
                now
            } else {
                last
            };
            !reports(next, now)
        }),
{
}

/// An announcement is drawn in each of the twenty frames that follow it,
/// and no longer after them.
pub proof fn announcement_lasts_twenty_frames(k: nat)
    ensures
        k < ANNOUNCEMENT_FRAMES ==> counter_after_frames(ANNOUNCEMENT_FRAMES as nat, k) > 0,
        k >= ANNOUNCEMENT_FRAMES ==> counter_after_frames(ANNOUNCEMENT_FRAMES as nat, k) == 0,
{
    lemma_counter_after_frames(ANNOUNCEMENT_FRAMES as nat, k);
}

proof fn lemma_counter_after_frames(c: nat, k: nat)
    ensures
        counter_after_frames(c, k) == if k < c {
            (c - k) as nat
        } else {
            0nat
        },
    decreases k,
{
    if k > 0 && c > 0 {
        lemma_counter_after_frames((c - 1) as nat, (k - 1) as nat);
    }
}

/// The state of the first client between two ticks: what it last read.
pub struct LegacyTracker {
    old_muds: u16,
    prevpos: [u16; 3],
    prevhero: [u16; 2],
}

/// Whether the first client's reading differs from the last one.
pub open spec fn legacy_changed(last: Sighting, now: Sighting) -> bool {
    last.saved_muds != now.saved_muds || last.location != now.location || last.position
        != now.position
}

/// Whether the first client sends a changed reading: not at the title
/// screen (level 0 at the screen's corner).
pub open spec fn legacy_sends(now: Sighting) -> bool {
    now.location[0] != 0 || now.position != seq![0u16, 0u16]
}

impl LegacyTracker {
    /// What the first client last read.
    pub closed spec fn last(&self) -> Sighting {
        Sighting { saved_muds: self.old_muds, location: self.prevpos@, position: self.prevhero@ }
    }

    /// The state when the first client starts; the Mudokon count starts at
    /// one so that the first reading counts as a change.
    pub fn new() -> (res: LegacyTracker)
        ensures
            res.last() == (Sighting {
                saved_muds: 1,
                location: seq![0u16, 0u16, 0u16],
                position: seq![0u16, 0u16],
            }),
    {
        let res = LegacyTracker { old_muds: 1, prevpos: [0, 0, 0], prevhero: [0, 0] };
        assert(res.prevpos@ =~= seq![0u16, 0u16, 0u16]);
        assert(res.prevhero@ =~= seq![0u16, 0u16]);
        res
    }

    /// Decides what the first client does with one reading of the game: a
    /// changed reading is remembered, and sent unless it is the title screen.
    pub fn observe(
        &mut self,
        name: &String,
        saved_muds: u16,
        pos: [u16; 3],
        xpos: u16,
        ypos: u16,
    ) -> (res: Option<PlayerInfo>)
        ensures
            ({
                let now = Sighting {
                    saved_muds,
                    location: pos@,
                    position: spec_relative_position(xpos, ypos),
                };
                &&& final(self).last() == if legacy_changed(old(self).last(), now) {
                    now
                } else {
                    old(self).last()
                }
                &&& res is Some <==> legacy_changed(old(self).last(), now) && legacy_sends(now)
                &&& res matches Some(p) ==> p@.name == name@ && p@.saved_muds == saved_muds
                    && p@.location == pos@ && p@.position == now.position
            }),
    {
        let relativexy = relative_position(xpos, ypos);
        let zero: [u16; 2] = [0, 0];
        proof {
            assert(zero@ =~= seq![0u16, 0u16]);
        }
        if self.old_muds != saved_muds || !same_location(&self.prevpos, &pos) || !same_position(
            &self.prevhero,
            &relativexy,
        ) {
            self.prevpos = pos;
            self.old_muds = saved_muds;
            self.prevhero = relativexy;
            if pos[0] != 0 || !same_position(&relativexy, &zero) {
                return Some(
                    PlayerInfo {
                        name: name.clone(),
                        saved_muds: saved_muds,
                        location: pos,
                        position: relativexy,
                    },
                );
            }
        }
        None
    }
}

} // verus!
