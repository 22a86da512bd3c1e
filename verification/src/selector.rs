//! The station picker: a highlighted row that keys move over the list of
//! stations, and what a key asks of the program.
use vstd::prelude::*;
use crate::stations::{ClassicalStations, Station, STATION_COUNT, station_at, station_position, station_record};

verus! {

/// A key, as far as the program tells keys apart.
#[derive(Debug, Clone, Copy, PartialEq, Eq, Structural)]
pub enum KeyCode {
    Char(char),
    Esc,
    Enter,
    Up,
    Down,
    Other,
}

/// A key press; `control_only` holds when Control, and no other modifier, is down.
#[derive(Debug, Clone, Copy, PartialEq, Eq, Structural)]
pub struct KeyPress {
    pub code: KeyCode,
    pub control_only: bool,
}

/// What the picker makes of a key.
#[derive(Debug, Clone, Copy)]
pub enum StationSelectorResult {
    /// Not a key of the picker.
    Ignored,
    /// The highlight moved.
    Scrolling,
    /// The picker is to close.
    CloseSelector,
    /// The highlighted station was chosen.
    NewStation(Station),
}

/// The highlight stands on a station of the list, or nowhere.
pub open spec fn in_list(sel: Option<usize>) -> bool {
    sel matches Some(i) ==> i < STATION_COUNT
}

/// The highlight after moving down a row: the first row from no highlight,
/// else one row further, with no bound until the list is next drawn (as
/// ratatui's `TableState::select_next` does).
pub open spec fn next_row(sel: Option<usize>) -> Option<usize> {
    match sel {
        None => Some(0usize),
        Some(i) => Some(if i < usize::MAX { (i + 1) as usize } else { usize::MAX }),
    }
}

/// The highlight after moving up a row: `usize::MAX` from no highlight, else
/// one row back and no further than the first (as ratatui's
/// `TableState::select_previous` does).
pub open spec fn previous_row(sel: Option<usize>) -> Option<usize> {
    match sel {
        None => Some(usize::MAX),
        Some(i) => Some(if i > 0 { (i - 1) as usize } else { 0usize }),
    }
}

/// The highlight as drawing the list corrects it: a row past the list moves
/// to the last station (as ratatui's `Table` rendering does).
pub open spec fn fitted_row(sel: Option<usize>) -> Option<usize> {
    match sel {
        None => None,
        Some(i) => Some(if i < STATION_COUNT { i } else { (STATION_COUNT - 1) as usize }),
    }
}

/// The station that the highlight stands on; the first one with no highlight.
pub open spec fn highlighted_station(sel: Option<usize>) -> ClassicalStations {
    match sel {
        None => station_at(0),
        Some(i) => station_at(i as int),
    }
}

/// Enter chooses the station that the picker draws on the highlighted row.
/// The rows are the stations in list order (`rows`, as
/// `ClassicalStations::all` gives them); with the highlight on row `i` the
/// chosen station is the one on row `i`, and with no highlight the first.
pub proof fn lemma_enter_chooses_drawn_row(rows: Seq<ClassicalStations>, i: usize)
    requires
        rows.len() == STATION_COUNT,
        forall|j: int| 0 <= j < rows.len() ==> station_position(#[trigger] rows[j]) == j,
        i < STATION_COUNT,
    ensures
        highlighted_station(Some(i)) == rows[i as int],
        station_position(highlighted_station(Some(i))) == i,
        highlighted_station(None::<usize>) == rows[0],
{
    let c = highlighted_station(Some(i));
    crate::stations::lemma_position_roundtrip(rows[i as int], i as int);
    crate::stations::lemma_position_identifies(c, rows[i as int]);
    let c0 = highlighted_station(None::<usize>);
    crate::stations::lemma_position_roundtrip(rows[0], 0);
    crate::stations::lemma_position_identifies(c0, rows[0]);
}

/// Moving down a row and back up returns to the row; moving up and back
/// down returns to it unless it stood on the first row.
pub proof fn lemma_moves_undo(i: usize)
    ensures
        i < usize::MAX ==> previous_row(next_row(Some(i))) == Some(i),
        i > 0 ==> next_row(previous_row(Some(i))) == Some(i),
{
}

/// Whatever key moved it, the highlight is back in the list once the list is
/// drawn; drawing leaves a highlight in the list where it is.
pub proof fn lemma_drawn_highlight_in_list(sel: Option<usize>)
    ensures
        in_list(fitted_row(next_row(sel))),
        in_list(fitted_row(previous_row(sel))),
        in_list(sel) ==> fitted_row(sel) == sel,
{
}

/// The list of stations with one row highlighted, or none.
#[derive(Debug)]
pub struct StationSelector {
    selected: Option<usize>,
}

impl View for StationSelector {
    type V = Option<usize>;

    closed spec fn view(&self) -> Option<usize> {
        self.selected
    }
}

impl StationSelector {
    /// The highlighted row, if any.
    pub fn selected(&self) -> (r: Option<usize>)
        ensures
            r == self@,
    {
        self.selected
    }

    /// The station under the highlight; the first station with no highlight.
    pub fn station(&self) -> (s: Station)
        requires
            in_list(self@),
        ensures
            s == station_record(highlighted_station(self@)),
            station_position(highlighted_station(self@)) == (match self@ {
                Some(i) => i,
                None => 0,
            }),
    {
        let idx: usize = match self.selected {
            Some(i) => i,
            None => 0,
        };
        let st = ClassicalStations::from_position(idx);
        match st {
            Some(c) => c.station(),
            None => ClassicalStations::Glissando.station(),
        }
    }

    /// Highlights row `idx` of the list.
    pub fn set_station_idx(&mut self, idx: usize)
        requires
            idx < STATION_COUNT,
        ensures
            final(self)@ == Some(idx),
    {
        self.selected = Some(idx);
    }

    /// Moves the highlight down a row.
    pub fn select_next(&mut self)
        ensures
            final(self)@ == next_row(old(self)@),
    {
        let next: usize = match self.selected {
            None => 0,
            Some(i) => if i < usize::MAX { i + 1 } else { usize::MAX },
        };
        self.selected = Some(next);
    }

    /// Moves the highlight up a row.
    pub fn select_previous(&mut self)
        ensures
            final(self)@ == previous_row(old(self)@),
    {
        let previous: usize = match self.selected {
            None => usize::MAX,
            Some(i) => if i > 0 { i - 1 } else { 0 },
        };
        self.selected = Some(previous);
    }

    /// Corrects the highlight to the rows of the list, as drawing the list does.
    pub fn fit_to_rows(&mut self)
        ensures
            final(self)@ == fitted_row(old(self)@),
    {
        match self.selected {
            Some(i) => {
                if i >= STATION_COUNT {
                    self.selected = Some(STATION_COUNT - 1);
                }
            },
            None => {},
        }
    }

    /// Answers a key: Esc closes, Enter chooses the highlighted station, Up
    /// and Down move the highlight; any other key is not the picker's.
    pub fn handle_key_events(&mut self, key_event: KeyPress) -> (r: StationSelectorResult)
        requires
            key_event.code == KeyCode::Enter ==> in_list(old(self)@),
        ensures
            match key_event.code {
                KeyCode::Esc => r is CloseSelector && final(self)@ == old(self)@,
                KeyCode::Enter => r == StationSelectorResult::NewStation(
                    station_record(highlighted_station(old(self)@)),
                ) && final(self)@ == old(self)@,
                KeyCode::Up => r is Scrolling && final(self)@ == previous_row(old(self)@),
                KeyCode::Down => r is Scrolling && final(self)@ == next_row(old(self)@),
                _ => r is Ignored && final(self)@ == old(self)@,
            },
    {
        match key_event.code {
            KeyCode::Esc => StationSelectorResult::CloseSelector,
            KeyCode::Enter => StationSelectorResult::NewStation(self.station()),
            KeyCode::Up => {
                self.select_previous();
                StationSelectorResult::Scrolling
            },
            KeyCode::Down => {
                self.select_next();
                StationSelectorResult::Scrolling
            },
            _ => StationSelectorResult::Ignored,
        }
    }
}

impl Default for StationSelector {
    fn default() -> (s: Self)
        ensures
            s@ == None::<usize>,
    {
        StationSelector { selected: None }
    }
}

} // verus!
