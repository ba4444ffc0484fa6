//! What a scene update does to the game: the colors of the grid, and what is
//! said aloud.

use vstd::prelude::*;
use crate::actions::{Point, PointColor, SceneUpdate, SceneUpdateView, GRID_SIDE};
use crate::color::Color;

verus! {

/// Text to be spoken.
#[derive(Clone, Debug, PartialEq, Eq)]
pub struct RequestAudioEvent {
    pub text: String,
}

/// What is said when the game ends well.
pub const WON: &'static str = "Everyone wins sometimes.";

/// What is said when the game ends badly.
pub const LOST: &'static str = "Game over man, game over.";

/// The texts that an update has spoken, in order: for the end of the game the
/// fitting phrase, then the message, where the update has them; for a `Sorry`
/// its error.
pub open spec fn spoken(update: SceneUpdateView) -> Seq<Seq<char>> {
    match update {
        SceneUpdateView::UpdateGame { game_end, message, .. } => {
            let ending = match game_end {
                Some(true) => seq![WON@],
                Some(false) => seq![LOST@],
                None => Seq::empty(),
            };
            match message {
                Some(text) => ending.push(text),
                None => ending,
            }
        },
        SceneUpdateView::Sorry { error } => seq![error],
    }
}

/// The texts of a list of audio requests.
pub open spec fn audio_texts(events: Seq<RequestAudioEvent>) -> Seq<Seq<char>> {
    Seq::new(events.len(), |i: int| events[i].text@)
}

/// The audio requests that an update makes.
pub fn announcements(update: &SceneUpdate) -> (r: Vec<RequestAudioEvent>)
    ensures
        audio_texts(r@) == spoken(update@),
{
    let mut events: Vec<RequestAudioEvent> = Vec::new();
    match update {
        SceneUpdate::UpdateGame { clear_grid: _, update_points: _, game_end, message } => {
            match game_end {
                Some(true) => {
                    events.push(RequestAudioEvent { text: WON.to_owned() });
                },
                Some(false) => {
                    events.push(RequestAudioEvent { text: LOST.to_owned() });
                },
                None => {},
            }
            match message {
                Some(text) => {
                    events.push(RequestAudioEvent { text: text.clone() });
                },
                None => {},
            }
        },
        SceneUpdate::Sorry { error } => {
            events.push(RequestAudioEvent { text: error.clone() });
        },
    }
    assert(audio_texts(events@) =~= spoken(update@));
    events
}

/// The number of cells of the grid.
pub const CELLS: usize = 400;

/// The color of a cell that nothing has been painted on.
pub open spec fn white() -> Color {
    Color { red: 255, green: 255, blue: 255, alpha: 255 }
}

/// Where the cell `point` stands among the cells: column after column.
pub open spec fn cell_index(point: Point) -> int {
    point.x * GRID_SIDE + point.y
}

/// The cells with one point painted. A point off the grid paints nothing.
pub open spec fn paint(cells: Seq<Color>, point: PointColor) -> Seq<Color> {
    if point.point.on_grid() {
        cells.update(cell_index(point.point), point.color)
    } else {
        cells
    }
}

/// The cells with the points painted one after the other, so that of two
/// points on one cell the later one shows.
pub open spec fn paint_all(cells: Seq<Color>, points: Seq<PointColor>) -> Seq<Color>
    decreases points.len(),
{
    if points.len() == 0 {
        cells
    } else {
        paint(paint_all(cells, points.drop_last()), points.last())
    }
}

/// The grid with every cell white.
pub open spec fn blank() -> Seq<Color> {
    Seq::new(CELLS as nat, |i: int| white())
}

/// The cells after an update. An `UpdateGame` first clears the grid where it
/// says so, then paints its points; a `Sorry` leaves the grid as it is.
pub open spec fn cells_after(cells: Seq<Color>, update: SceneUpdateView) -> Seq<Color> {
    match update {
        SceneUpdateView::UpdateGame { clear_grid, update_points, .. } => paint_all(
            if clear_grid == Some(true) {
                blank()
            } else {
                cells
            },
            update_points,
        ),
        SceneUpdateView::Sorry { .. } => cells,
    }
}

/// The colors of the grid, cell by cell.
pub struct Grid {
    cells: Vec<Color>,
}

impl View for Grid {
    type V = Seq<Color>;

    closed spec fn view(&self) -> Seq<Color> {
        self.cells@
    }
}

impl Grid {
    #[verifier::type_invariant]
    spec fn has_all_cells(self) -> bool {
        self.cells.len() == CELLS
    }

    /// A grid with every cell white.
    pub fn new() -> (grid: Grid)
        ensures
            grid@ == blank(),
    {
        let mut cells: Vec<Color> = Vec::new();
        while cells.len() < CELLS
            invariant
                cells.len() <= CELLS,
                forall|i: int| 0 <= i < cells.len() ==> cells[i] == white(),
            decreases CELLS - cells.len(),
        {
            cells.push(Color { red: 255, green: 255, blue: 255, alpha: 255 });
        }
        assert(cells@ =~= blank());
        Grid { cells }
    }

    /// The color of the cell `point`, and none where it lies off the grid.
    pub fn color_at(&self, point: Point) -> (r: Option<Color>)
        ensures
            self@.len() == CELLS,
            r == if point.on_grid() {
                Some(self@[cell_index(point)])
            } else {
                None
            },
    {
        proof {
            use_type_invariant(self);
        }
        if point.x < GRID_SIDE && point.y < GRID_SIDE {
            Some(self.cells[point.x as usize * GRID_SIDE as usize + point.y as usize])
        } else {
            None
        }
    }

    /// Applies an update to the grid.
    pub fn apply(self, update: &SceneUpdate) -> (grid: Grid)
        ensures
            grid@ == cells_after(self@, update@),
    {
        proof {
            use_type_invariant(&self);
        }
        match update {
            SceneUpdate::UpdateGame { clear_grid, update_points, game_end: _, message: _ } => {
                let cleared = match clear_grid {
                    Some(true) => Grid::new(),
                    _ => self,
                };
                proof {
                    use_type_invariant(&cleared);
                }
                let ghost start = cleared@;
                let Grid { mut cells } = cleared;
                let mut i: usize = 0;
                assert(update_points@.take(0) =~= Seq::empty());
                while i < update_points.len()
                    invariant
                        i <= update_points.len(),
                        cells.len() == CELLS,
                        cells@ == paint_all(start, update_points@.take(i as int)),
                    decreases update_points.len() - i,
                {
                    let point = update_points[i];
                    assert(update_points@.take(i as int + 1).drop_last() =~= update_points@.take(i as int));
                    assert(update_points@.take(i as int + 1).last() == point);
                    if point.point.x < GRID_SIDE && point.point.y < GRID_SIDE {
                        cells.set(point.point.x as usize * GRID_SIDE as usize + point.point.y as usize, point.color);
                    }
                    i += 1;
                }
                assert(update_points@.take(i as int) =~= update_points@);
                Grid { cells }
            },
            SceneUpdate::Sorry { .. } => self,
        }
    }
}

} // verus!
