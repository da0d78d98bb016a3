//! The state that a notebook keeps from decoded messages: a list of cells,
//! each keyed by the id of the request that ran its code, with the output
//! that the request produced.

use vstd::prelude::*;
use crate::content::{DisplayData, Error, Transient};
use crate::json::JsonValue;
use crate::content::{ExecuteInput, ExecuteResult, UpdateDisplayData};
use crate::message::{IoPubEnvelope, Message};

verus! {

/// One cell: code that was run, and what it produced.
#[derive(Debug, PartialEq)]
pub struct CodeCell {
    /// The id of the request that ran the code.
    pub id: String,
    pub code: String,
    /// The last output bundle, from mime type to value.
    pub output: Option<Vec<(String, JsonValue)>>,
    /// The display id of that output, if it came from a display.
    pub display_id: Option<String>,
    /// The exception that running the code raised, if any.
    pub error: Option<Error>,
}

/// The cells of a notebook, in the order in which their code was run.
pub struct Notebook {
    cells: Vec<CodeCell>,
}

impl View for Notebook {
    type V = Seq<CodeCell>;

    closed spec fn view(&self) -> Seq<CodeCell> {
        self.cells@
    }
}

/// The index of the first cell with id `id`, looking from `start` on.
pub open spec fn cell_index_from(cells: Seq<CodeCell>, id: Seq<char>, start: int) -> Option<int>
    decreases cells.len() - start,
{
    if start < 0 || start >= cells.len() {
        None
    } else if cells[start].id@ == id {
        Some(start)
    } else {
        cell_index_from(cells, id, start + 1)
    }
}

/// The index of the first cell with id `id`.
pub open spec fn cell_index(cells: Seq<CodeCell>, id: Seq<char>) -> Option<int> {
    cell_index_from(cells, id, 0)
}

/// Whether a cell's output came from the display `display_id`.
pub open spec fn shows_display(c: CodeCell, display_id: Seq<char>) -> bool {
    c.display_id matches Some(d) && d@ == display_id
}

/// The index of the first cell whose output came from the display
/// `display_id`, looking from `start` on.
pub open spec fn display_index_from(cells: Seq<CodeCell>, display_id: Seq<char>, start: int) -> Option<int>
    decreases cells.len() - start,
{
    if start < 0 || start >= cells.len() {
        None
    } else if shows_display(cells[start], display_id) {
        Some(start)
    } else {
        display_index_from(cells, display_id, start + 1)
    }
}

/// The index of the first cell whose output came from the display `display_id`.
pub open spec fn display_index(cells: Seq<CodeCell>, display_id: Seq<char>) -> Option<int> {
    display_index_from(cells, display_id, 0)
}

/// A new cell for code run by request `id`, with no output yet.
pub open spec fn new_cell(id: String, code: String) -> CodeCell {
    CodeCell { id, code, output: None, display_id: None, error: None }
}

/// The cell with its output replaced.
pub open spec fn with_output(c: CodeCell, data: Vec<(String, JsonValue)>, display_id: Option<String>) -> CodeCell {
    CodeCell { id: c.id, code: c.code, output: Some(data), display_id, error: c.error }
}

/// The cell with its error set.
pub open spec fn with_error(c: CodeCell, error: Error) -> CodeCell {
    CodeCell { id: c.id, code: c.code, output: c.output, display_id: c.display_id, error: Some(error) }
}

/// The display id that a transient gives.
pub open spec fn display_id_of(t: Option<Transient>) -> Option<String> {
    match t {
        Some(t) => Some(t.display_id),
        None => None,
    }
}

/// The output of the cell that request `id` ran replaced, if there is one.
pub open spec fn set_output(
    cells: Seq<CodeCell>,
    id: Seq<char>,
    data: Vec<(String, JsonValue)>,
    display_id: Option<String>,
) -> Seq<CodeCell> {
    match cell_index(cells, id) {
        Some(i) => cells.update(i, with_output(cells[i], data, display_id)),
        None => cells,
    }
}

/// The cells after one message: code that was run adds a cell at the end;
/// a display or a result replaces the output of the cell its parent ran; an
/// update replaces the output of the first cell that shows its display; an
/// error is set on the cell its parent ran. Output whose cell is not there
/// is dropped, and every other message leaves the cells as they are.
pub open spec fn cells_after(cells: Seq<CodeCell>, m: Message) -> Seq<CodeCell> {
    match m {
        Message::ExecuteInput(env) => cells.push(new_cell(env.parent_header.msg_id, env.content.code)),
        Message::DisplayData(env) => set_output(
            cells,
            env.parent_header.msg_id@,
            env.content.data,
            display_id_of(env.content.transient),
        ),
        Message::ExecuteResult(env) => set_output(cells, env.parent_header.msg_id@, env.content.data, None),
        Message::UpdateDisplayData(env) => match env.content.transient {
            Some(t) => match display_index(cells, t.display_id@) {
                Some(j) => cells.update(j, with_output(cells[j], env.content.data, cells[j].display_id)),
                None => cells,
            },
            None => cells,
        },
        Message::Error(env) => match cell_index(cells, env.parent_header.msg_id@) {
            Some(i) => cells.update(i, with_error(cells[i], env.content)),
            None => cells,
        },
        _ => cells,
    }
}

proof fn lemma_cell_index_from(cells: Seq<CodeCell>, id: Seq<char>, start: int)
    requires
        0 <= start,
    ensures
        match cell_index_from(cells, id, start) {
            Some(k) => start <= k < cells.len() && cells[k].id@ == id
                && forall|j: int| start <= j < k ==> (#[trigger] cells[j]).id@ != id,
            None => forall|j: int| start <= j < cells.len() ==> (#[trigger] cells[j]).id@ != id,
        },
    decreases cells.len() - start,
{
    if start < cells.len() && cells[start].id@ != id {
        lemma_cell_index_from(cells, id, start + 1);
    }
}

proof fn lemma_display_index_from(cells: Seq<CodeCell>, display_id: Seq<char>, start: int)
    requires
        0 <= start,
    ensures
        match display_index_from(cells, display_id, start) {
            Some(k) => start <= k < cells.len() && shows_display(cells[k], display_id)
                && forall|j: int| start <= j < k ==> !shows_display(#[trigger] cells[j], display_id),
            None => forall|j: int| start <= j < cells.len() ==> !shows_display(#[trigger] cells[j], display_id),
        },
    decreases cells.len() - start,
{
    if start < cells.len() && !shows_display(cells[start], display_id) {
        lemma_display_index_from(cells, display_id, start + 1);
    }
}

/// From no cells, the echo of code run by a request and then a result for
/// the same request leave exactly one cell, keyed by that request, holding
/// that code and, as its output, that result's data.
pub proof fn lemma_input_then_result_make_one_cell(
    input: IoPubEnvelope<ExecuteInput>,
    result: IoPubEnvelope<ExecuteResult>,
)
    requires
        result.parent_header.msg_id@ == input.parent_header.msg_id@,
    ensures
        ({
            let cells = cells_after(
                cells_after(Seq::empty(), Message::ExecuteInput(input)),
                Message::ExecuteResult(result),
            );
            &&& cells.len() == 1
            &&& cells[0].id == input.parent_header.msg_id
            &&& cells[0].code == input.content.code
            &&& cells[0].output == Some(result.content.data)
        }),
{
    let one = cells_after(Seq::empty(), Message::ExecuteInput(input));
    assert(cell_index_from(one, result.parent_header.msg_id@, 0) == Some(0int));
}

/// An update of a display, arriving after a display that stored its output
/// under the same display id, replaces the output of the first cell that
/// shows that display, which is the displayed cell where no cell showed it
/// before; every other cell, and the number of cells, stay as they were.
pub proof fn lemma_update_replaces_display_in_place(
    cells: Seq<CodeCell>,
    display: IoPubEnvelope<DisplayData>,
    update: IoPubEnvelope<UpdateDisplayData>,
)
    requires
        cell_index(cells, display.parent_header.msg_id@) is Some,
        display.content.transient matches Some(t) && update.content.transient matches Some(u)
            && t.display_id@ == u.display_id@,
    ensures
        ({
            let shown = cells_after(cells, Message::DisplayData(display));
            let updated = cells_after(shown, Message::UpdateDisplayData(update));
            let d = update.content.transient->Some_0.display_id@;
            let i = cell_index(cells, display.parent_header.msg_id@)->Some_0;
            &&& display_index(shown, d) is Some
            &&& updated.len() == cells.len()
            &&& updated[display_index(shown, d)->Some_0].output == Some(update.content.data)
            &&& forall|j: int| 0 <= j < updated.len() && j != display_index(shown, d)->Some_0
                ==> #[trigger] updated[j] == shown[j]
            &&& display_index(cells, d) is None ==> display_index(shown, d) == Some(i)
        }),
{
    let shown = cells_after(cells, Message::DisplayData(display));
    let d = update.content.transient->Some_0.display_id@;
    let i = cell_index(cells, display.parent_header.msg_id@)->Some_0;
    lemma_cell_index_from(cells, display.parent_header.msg_id@, 0);
    assert(shows_display(shown[i], d));
    lemma_display_index_from(shown, d, 0);
    lemma_display_index_from(cells, d, 0);
    if display_index(cells, d) is None {
        assert forall|j: int| 0 <= j < shown.len() && j != i implies !shows_display(#[trigger] shown[j], d) by {
            assert(shown[j] == cells[j]);
        }
    }
}

/// A result whose parent matches no cell is dropped: the cells stay as they
/// were, and no cell is made for it.
pub proof fn lemma_result_without_cell_is_dropped(cells: Seq<CodeCell>, result: IoPubEnvelope<ExecuteResult>)
    requires
        forall|j: int| 0 <= j < cells.len() ==> (#[trigger] cells[j]).id@ != result.parent_header.msg_id@,
    ensures
        cells_after(cells, Message::ExecuteResult(result)) == cells,
{
    lemma_cell_index_from(cells, result.parent_header.msg_id@, 0);
}

impl Notebook {
    /// A notebook with no cells.
    pub fn new() -> (r: Notebook)
        ensures
            r@ == Seq::<CodeCell>::empty(),
    {
        Notebook { cells: Vec::new() }
    }

    /// The cells, in order.
    pub fn cells(&self) -> (r: &Vec<CodeCell>)
        ensures
            r@ == self@,
    {
        &self.cells
    }

    /// Finds the first cell with id `id`.
    fn find_cell(&self, id: &String) -> (r: Option<usize>)
        ensures
            match r {
                Some(i) => i < self@.len() && cell_index(self@, id@) == Some(i as int),
                None => cell_index(self@, id@) is None,
            },
    {
        let mut i: usize = 0;
        while i < self.cells.len()
            invariant
                i <= self.cells@.len(),
                cell_index_from(self.cells@, id@, 0) == cell_index_from(self.cells@, id@, i as int),
            decreases self.cells@.len() - i,
        {
            if self.cells[i].id == *id {
                return Some(i);
            }
            i += 1;
        }
        None
    }

    /// Finds the first cell whose output came from the display `display_id`.
    fn find_display(&self, display_id: &String) -> (r: Option<usize>)
        ensures
            match r {
                Some(i) => i < self@.len() && display_index(self@, display_id@) == Some(i as int),
                None => display_index(self@, display_id@) is None,
            },
    {
        let mut i: usize = 0;
        while i < self.cells.len()
            invariant
                i <= self.cells@.len(),
                display_index_from(self.cells@, display_id@, 0) == display_index_from(
                    self.cells@,
                    display_id@,
                    i as int,
                ),
            decreases self.cells@.len() - i,
        {
            let shown = match &self.cells[i].display_id {
                Some(d) => *d == *display_id,
                None => false,
            };
            if shown {
                return Some(i);
            }
            i += 1;
        }
        None
    }

    /// Replaces the output of the cell at `i`.
    fn replace_output(&mut self, i: usize, data: Vec<(String, JsonValue)>, display_id: Option<String>)
        requires
            i < old(self)@.len(),
        ensures
            final(self)@ == old(self)@.update(i as int, with_output(old(self)@[i as int], data, display_id)),
    {
        let cell = self.cells.remove(i);
        let CodeCell { id, code, output: _, display_id: _, error } = cell;
        self.cells.insert(i, CodeCell { id, code, output: Some(data), display_id, error });
        assert(self.cells@ =~= old(self)@.update(i as int, with_output(old(self)@[i as int], data, display_id)));
    }

    /// Adds a cell at the end for code run by request `cell_id`.
    pub fn push_code_cell_to_end(&mut self, cell_code: String, cell_id: String)
        ensures
            final(self)@ == old(self)@.push(new_cell(cell_id, cell_code)),
    {
        self.cells.push(CodeCell { id: cell_id, code: cell_code, output: None, display_id: None, error: None });
    }

    /// Applies one decoded message to the cells.
    pub fn handle_message(&mut self, message: Message)
        ensures
            final(self)@ == cells_after(old(self)@, message),
    {
        match message {
            Message::ExecuteInput(env) => {
                self.push_code_cell_to_end(env.content.code, env.parent_header.msg_id);
            },
            Message::DisplayData(env) => {
                if let Some(i) = self.find_cell(&env.parent_header.msg_id) {
                    let display_id = match env.content.transient {
                        Some(t) => Some(t.display_id),
                        None => None,
                    };
                    self.replace_output(i, env.content.data, display_id);
                }
            },
            Message::ExecuteResult(env) => {
                if let Some(i) = self.find_cell(&env.parent_header.msg_id) {
                    self.replace_output(i, env.content.data, None);
                }
            },
            Message::UpdateDisplayData(env) => {
                if let Some(t) = env.content.transient {
                    if let Some(j) = self.find_display(&t.display_id) {
                        let display_id = match &self.cells[j].display_id {
                            Some(d) => Some(d.clone()),
                            None => None,
                        };
                        self.replace_output(j, env.content.data, display_id);
                    }
                }
            },
            Message::Error(env) => {
                if let Some(i) = self.find_cell(&env.parent_header.msg_id) {
                    let cell = self.cells.remove(i);
                    let CodeCell { id, code, output, display_id, error: _ } = cell;
                    self.cells.insert(i, CodeCell { id, code, output, display_id, error: Some(env.content) });
                    assert(self.cells@ =~= old(self)@.update(i as int, with_error(old(self)@[i as int], env.content)));
                }
            },
            _ => {},
        }
    }
}

} // verus!
