//! What is put on the screen, as plain text and flags: the two panes, the
//! legend and the error popup. Turning this into widgets is left to the
//! caller.

use crate::app::App;
use crate::device::{Device, DeviceView, Error, ErrorView, List};
use crate::model::AppView;
use vstd::prelude::*;
use vstd::string::*;

verus! {

/// The title of a list's pane.
pub open spec fn title_of(list: List) -> Seq<char> {
    match list {
        List::Unpaired => "Unpaired"@,
        List::Paired => "Paired"@,
    }
}

/// The column headings of a list's pane.
pub open spec fn header_of(list: List) -> Seq<Seq<char>> {
    match list {
        List::Unpaired => seq!["Alias"@],
        List::Paired => seq!["Alias"@, "Connected"@],
    }
}

/// A flag as text.
pub open spec fn flag_text(flag: bool) -> Seq<char> {
    if flag {
        "true"@
    } else {
        "false"@
    }
}

/// The animation frame for a counter: one of four strokes, by the counter modulo four.
pub open spec fn frame_text(counter: usize) -> Seq<char> {
    if counter % 4 == 0 {
        "│"@
    } else if counter % 4 == 1 {
        "╱"@
    } else if counter % 4 == 2 {
        "─"@
    } else {
        "╲"@
    }
}

/// The cells of a device's row: the alias, in the paired list the connected
/// flag, and the animation frame while an operation is outstanding.
pub open spec fn cells_of(device: DeviceView, list: List) -> Seq<Seq<char>> {
    let named = seq![device.alias];
    let flagged = if list == List::Paired {
        named.push(flag_text(device.connected))
    } else {
        named
    };
    match device.loading {
        Some(counter) => flagged.push(frame_text(counter)),
        None => flagged,
    }
}

/// The legend: the dismiss key while an error is shown, else the key
/// bindings, the last of them named after what Enter does in the active list.
pub open spec fn legend_of(app: AppView) -> Seq<char> {
    if app.error is Some {
        "esc: close"@
    } else {
        match app.selected_list {
            List::Unpaired => "◀▼▲▶: navigate • q: quit • s: scan • ↵: "@ + "pair"@,
            List::Paired => "◀▼▲▶: navigate • q: quit • s: scan • ↵: "@ + "connect"@,
        }
    }
}

/// One of the two panes.
#[derive(Clone, Debug)]
pub struct Pane {
    pub title: String,
    /// Whether the cursor is in this pane.
    pub active: bool,
    pub header: Vec<String>,
    /// One row of cells for each device, in table order.
    pub rows: Vec<Vec<String>>,
    /// The highlighted row, if the pane has one.
    pub selected: Option<usize>,
}

/// A pane as contracts see it.
pub ghost struct PaneView {
    pub title: Seq<char>,
    pub active: bool,
    pub header: Seq<Seq<char>>,
    pub rows: Seq<Seq<Seq<char>>>,
    pub selected: Option<nat>,
}

/// The texts of a row of cells.
pub open spec fn texts(cells: Seq<String>) -> Seq<Seq<char>> {
    Seq::new(cells.len(), |i: int| cells[i]@)
}

/// The texts of a table of cells.
pub open spec fn table_texts(rows: Seq<Vec<String>>) -> Seq<Seq<Seq<char>>> {
    Seq::new(rows.len(), |i: int| texts(rows[i]@))
}

impl View for Pane {
    type V = PaneView;

    open spec fn view(&self) -> PaneView {
        PaneView {
            title: self.title@,
            active: self.active,
            header: texts(self.header@),
            rows: table_texts(self.rows@),
            selected: match self.selected {
                Some(row) => Some(row as nat),
                None => None,
            },
        }
    }
}

/// The pane of a list: the cursor's row is highlighted in the active pane
/// unless the list is empty.
pub open spec fn pane_of(app: AppView, list: List) -> PaneView {
    PaneView {
        title: title_of(list),
        active: list == app.selected_list,
        header: header_of(list),
        rows: Seq::new(app.list(list).len(), |i: int| cells_of(app.list(list)[i].1, list)),
        selected: if list == app.selected_list && app.list(list).len() > 0 {
            Some(app.selected_row)
        } else {
            None
        },
    }
}

/// The overlay that shows an error.
#[derive(Clone, Debug)]
pub struct Popup {
    pub title: String,
    pub heading: String,
    pub message: String,
}

/// A popup as contracts see it.
pub ghost struct PopupView {
    pub title: Seq<char>,
    pub heading: Seq<char>,
    pub message: Seq<char>,
}

impl View for Popup {
    type V = PopupView;

    open spec fn view(&self) -> PopupView {
        PopupView { title: self.title@, heading: self.heading@, message: self.message@ }
    }
}

/// The popup for an error: it is headed by what was being attempted.
pub open spec fn popup_of(error: ErrorView) -> PopupView {
    PopupView { title: "Error"@, heading: "Error while "@ + error.process, message: error.message }
}

/// All that is drawn.
#[derive(Clone, Debug)]
pub struct Screen {
    pub unpaired: Pane,
    pub paired: Pane,
    pub legend: String,
    pub popup: Option<Popup>,
}

/// A screen as contracts see it.
pub ghost struct ScreenView {
    pub unpaired: PaneView,
    pub paired: PaneView,
    pub legend: Seq<char>,
    pub popup: Option<PopupView>,
}

impl View for Screen {
    type V = ScreenView;

    open spec fn view(&self) -> ScreenView {
        ScreenView {
            unpaired: self.unpaired@,
            paired: self.paired@,
            legend: self.legend@,
            popup: match self.popup {
                Some(popup) => Some(popup@),
                None => None,
            },
        }
    }
}

/// The screen for a state.
pub open spec fn screen_of(app: AppView) -> ScreenView {
    ScreenView {
        unpaired: pane_of(app, List::Unpaired),
        paired: pane_of(app, List::Paired),
        legend: legend_of(app),
        popup: match app.error {
            Some(error) => Some(popup_of(error)),
            None => None,
        },
    }
}

impl List {
    /// The list's name, as its pane is titled.
    pub fn to_string(&self) -> (name: String)
        ensures
            name@ == title_of(*self),
    {
        match self {
            List::Unpaired => String::from_str("Unpaired"),
            List::Paired => String::from_str("Paired"),
        }
    }
}

/// The stroke shown for a counter.
pub fn throbber(counter: usize) -> (frame: String)
    ensures
        frame@ == frame_text(counter),
{
    let phase = counter % 4;
    if phase == 0 {
        String::from_str("│")
    } else if phase == 1 {
        String::from_str("╱")
    } else if phase == 2 {
        String::from_str("─")
    } else {
        String::from_str("╲")
    }
}

/// The cells of a device's row in the pane of `list`.
pub fn cells(device: &Device, list: List) -> (row: Vec<String>)
    ensures
        texts(row@) == cells_of(device@, list),
{
    let mut row: Vec<String> = Vec::new();
    row.push(device.alias.clone());
    match list {
        List::Paired => {
            if device.connected {
                row.push(String::from_str("true"));
            } else {
                row.push(String::from_str("false"));
            }
        },
        List::Unpaired => {},
    }
    match device.loading {
        Some(counter) => {
            row.push(throbber(counter));
        },
        None => {},
    }
    assert(texts(row@) =~= cells_of(device@, list));
    row
}

/// The popup that shows an error.
pub fn popup(error: &Error) -> (shown: Popup)
    ensures
        shown@ == popup_of(error@),
{
    Popup {
        title: String::from_str("Error"),
        heading: String::from_str("Error while ").concat(error.process.as_str()),
        message: error.message.clone(),
    }
}

impl App {
    /// The legend under the panes.
    pub fn legend(&self) -> (legend: String)
        ensures
            legend@ == legend_of(self@),
    {
        if self.error().is_some() {
            String::from_str("esc: close")
        } else {
            let keys = String::from_str("◀▼▲▶: navigate • q: quit • s: scan • ↵: ");
            match self.selected_list() {
                List::Unpaired => keys.concat("pair"),
                List::Paired => keys.concat("connect"),
            }
        }
    }

    /// The pane of a list.
    pub fn table(&self, list: List) -> (pane: Pane)
        ensures
            pane@ == pane_of(self@, list),
    {
        let active = match (list, self.selected_list()) {
            (List::Unpaired, List::Unpaired) => true,
            (List::Paired, List::Paired) => true,
            _ => false,
        };
        let mut header: Vec<String> = Vec::new();
        header.push(String::from_str("Alias"));
        match list {
            List::Paired => {
                header.push(String::from_str("Connected"));
            },
            List::Unpaired => {},
        }
        assert(texts(header@) =~= header_of(list));
        let n = self.len(list);
        let mut rows: Vec<Vec<String>> = Vec::new();
        let mut i: usize = 0;
        while i < n
            invariant
                i <= n,
                n == self@.list(list).len(),
                rows.len() == i,
                forall|j: int|
                    0 <= j < i ==> texts(#[trigger] rows[j]@) == cells_of(
                        self@.list(list)[j].1,
                        list,
                    ),
            decreases n - i,
        {
            match self.entry(list, i) {
                Some((_, device)) => {
                    rows.push(cells(device, list));
                },
                None => {},
            }
            i = i + 1;
        }
        let selected = if active && n > 0 {
            Some(self.selected_row())
        } else {
            None
        };
        let pane = Pane { title: list.to_string(), active, header, rows, selected };
        assert(pane@.rows =~= pane_of(self@, list).rows);
        pane
    }

    /// All that is drawn for the state: both panes, the legend, and the
    /// popup while an error is shown.
    pub fn render(&self) -> (screen: Screen)
        ensures
            screen@ == screen_of(self@),
    {
        let shown = match self.error() {
            Some(error) => Some(popup(error)),
            None => None,
        };
        Screen {
            unpaired: self.table(List::Unpaired),
            paired: self.table(List::Paired),
            legend: self.legend(),
            popup: shown,
        }
    }
}

} // verus!
