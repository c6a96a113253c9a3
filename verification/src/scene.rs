use vstd::prelude::*;

verus! {

/// In which layer a billboard is drawn.
#[derive(PartialEq, Eq, Structural, Debug, Clone, Copy)]
pub enum BillboardMode {
    Foreground,
    Middleground,
    Background,
}

/// The draw lists of the space scene, drawn background first.
#[derive(PartialEq, Eq, Structural, Debug, Clone, Copy)]
pub enum DrawList {
    Background,
    Main,
    Foreground,
}

impl BillboardMode {
    /// The draw list a billboard of this mode is registered in.
    pub fn draw_list(&self) -> (l: DrawList)
        ensures
            l == (match *self {
                BillboardMode::Foreground => DrawList::Foreground,
                BillboardMode::Middleground => DrawList::Main,
                BillboardMode::Background => DrawList::Background,
            }),
    {
        match self {
            BillboardMode::Foreground => DrawList::Foreground,
            BillboardMode::Middleground => DrawList::Main,
            BillboardMode::Background => DrawList::Background,
        }
    }
}

/// Position of a draw list in the frame: background, then the main list,
/// then the foreground.
pub open spec fn draw_rank(l: DrawList) -> nat {
    match l {
        DrawList::Background => 0,
        DrawList::Main => 1,
        DrawList::Foreground => 2,
    }
}

/// The draw lists in the order a frame draws them.
pub fn draw_order() -> (r: Vec<DrawList>)
    ensures
        r@.len() == 3,
        forall|i: int| 0 <= i < 3 ==> draw_rank(#[trigger] r@[i]) == i,
{
    let mut r: Vec<DrawList> = Vec::new();
    r.push(DrawList::Background);
    r.push(DrawList::Main);
    r.push(DrawList::Foreground);
    r
}

/// Background billboards are drawn before middleground ones, which are drawn
/// before foreground ones.
pub proof fn lemma_layers_ordered()
    ensures
        draw_rank(DrawList::Background) < draw_rank(DrawList::Main) < draw_rank(DrawList::Foreground),
{
}

/// Where a ship is in its visit to the station.
#[derive(PartialEq, Eq, Structural, Debug, Clone, Copy)]
pub enum ShipPhase {
    /// Flying towards the station.
    Inbound,
    /// Leaving the station through the far side.
    Outbound,
    /// Out of sight and removed from the scene.
    Removed,
}

/// The phase after one update: an inbound ship that has reached the station
/// turns outbound, an outbound ship that has left the view is removed.
pub open spec fn ship_phase_after(phase: ShipPhase, reached_station: bool, left_view: bool) -> ShipPhase {
    match phase {
        ShipPhase::Inbound => if reached_station { ShipPhase::Outbound } else { ShipPhase::Inbound },
        ShipPhase::Outbound => if left_view { ShipPhase::Removed } else { ShipPhase::Outbound },
        ShipPhase::Removed => ShipPhase::Removed,
    }
}

/// Advances a ship's phase; `reached_station` and `left_view` are the
/// position tests of the update (x below -1.5, x above 5).
pub fn ship_step(phase: ShipPhase, reached_station: bool, left_view: bool) -> (p: ShipPhase)
    ensures
        p == ship_phase_after(phase, reached_station, left_view),
{
    match phase {
        ShipPhase::Inbound => if reached_station { ShipPhase::Outbound } else { ShipPhase::Inbound },
        ShipPhase::Outbound => if left_view { ShipPhase::Removed } else { ShipPhase::Outbound },
        ShipPhase::Removed => ShipPhase::Removed,
    }
}

/// An inbound ship turns outbound exactly when it reaches the station and
/// otherwise keeps flying in; an outbound ship is removed exactly when it
/// leaves the view; a removed ship stays removed. Each phase looks only at
/// its own position test.
pub proof fn lemma_ship_turns_only_at_its_test(reached_station: bool, left_view: bool)
    ensures
        (ship_phase_after(ShipPhase::Inbound, reached_station, left_view) == ShipPhase::Outbound) <==> reached_station,
        (ship_phase_after(ShipPhase::Inbound, reached_station, left_view) == ShipPhase::Inbound) <==> !reached_station,
        (ship_phase_after(ShipPhase::Outbound, reached_station, left_view) == ShipPhase::Removed) <==> left_view,
        (ship_phase_after(ShipPhase::Outbound, reached_station, left_view) == ShipPhase::Outbound) <==> !left_view,
        ship_phase_after(ShipPhase::Removed, reached_station, left_view) == ShipPhase::Removed,
{
}

pub open spec fn phase_rank(p: ShipPhase) -> nat {
    match p {
        ShipPhase::Inbound => 0,
        ShipPhase::Outbound => 1,
        ShipPhase::Removed => 2,
    }
}

/// A ship never goes back: each update keeps its phase or moves it one step
/// forward.
pub proof fn lemma_ship_phase_monotone(phase: ShipPhase, reached_station: bool, left_view: bool)
    ensures
        phase_rank(phase) <= phase_rank(ship_phase_after(phase, reached_station, left_view)) <= phase_rank(phase) + 1,
{
}

} // verus!
