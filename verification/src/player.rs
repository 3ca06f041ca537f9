use vstd::prelude::*;

verus! {

/// Width of one screen of the game, in game units.
pub const ROOM_WIDTH: u16 = 375;

/// Height of one screen of the game, in game units.
pub const ROOM_HEIGHT: u16 = 260;

/// What a client reports about its player, and what the server keeps.
#[derive(Debug, PartialEq, Eq)]
pub struct PlayerInfo {
    pub name: String,
    pub saved_muds: u16,
    /// Level id, path id, camera id.
    pub location: [u16; 3],
    /// X and Y inside the current screen.
    pub position: [u16; 2],
}

/// The mathematical value of a [`PlayerInfo`].
pub struct PlayerView {
    pub name: Seq<char>,
    pub saved_muds: u16,
    pub location: Seq<u16>,
    pub position: Seq<u16>,
}

impl View for PlayerInfo {
    type V = PlayerView;

    open spec fn view(&self) -> PlayerView {
        PlayerView {
            name: self.name@,
            saved_muds: self.saved_muds,
            location: self.location@,
            position: self.position@,
        }
    }
}

impl Clone for PlayerInfo {
    fn clone(&self) -> (res: Self)
        ensures
            res@ == self@,
    {
        PlayerInfo {
            name: self.name.clone(),
            saved_muds: self.saved_muds,
            location: self.location,
            position: self.position,
        }
    }
}

/// The position inside the current screen of an absolute map position.
pub open spec fn spec_relative_position(xpos: u16, ypos: u16) -> Seq<u16> {
    seq![(xpos % ROOM_WIDTH) as u16, (ypos % ROOM_HEIGHT) as u16]
}

/// Turns the absolute coordinates read from the game into the position
/// inside the current screen; the result lies inside the screen.
pub fn relative_position(xpos: u16, ypos: u16) -> (res: [u16; 2])
    ensures
        res@ == spec_relative_position(xpos, ypos),
        res[0] < ROOM_WIDTH,
        res[1] < ROOM_HEIGHT,
{
    let res = [xpos % ROOM_WIDTH, ypos % ROOM_HEIGHT];
    assert(res@ =~= spec_relative_position(xpos, ypos));
    res
}

/// Whether two locations (level, path, camera) are the same.
pub fn same_location(a: &[u16; 3], b: &[u16; 3]) -> (res: bool)
    ensures
        res == (a@ == b@),
{
    let res = a[0] == b[0] && a[1] == b[1] && a[2] == b[2];
    if res {
        assert(a@ =~= b@);
    }
    res
}

/// Whether two positions inside a screen are the same.
pub fn same_position(a: &[u16; 2], b: &[u16; 2]) -> (res: bool)
    ensures
        res == (a@ == b@),
{
    let res = a[0] == b[0] && a[1] == b[1];
    if res {
        assert(a@ =~= b@);
    }
    res
}

} // verus!
