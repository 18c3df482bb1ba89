use vstd::prelude::*;
use crate::text_buffer::{BufferView, TextBuffer};

verus! {

/// The request header editor: a list of (name, value) buffers, the selected
/// row, and whether the value (rather than the name) of that row is edited.
pub struct HeaderManager {
    pub headers: Vec<(TextBuffer, TextBuffer)>,
    pub selected_index: usize,
    pub editing_value: bool,
}

/// The rows of a header editor as (name, value) buffer views.
pub open spec fn rows_view(rows: Seq<(TextBuffer, TextBuffer)>) -> Seq<(BufferView, BufferView)> {
    rows.map_values(|r: (TextBuffer, TextBuffer)| (r.0@, r.1@))
}

impl HeaderManager {
    /// The selected row exists whenever there is any row.
    pub open spec fn selection_in_range(&self) -> bool {
        self.headers@.len() > 0 ==> self.selected_index < self.headers@.len()
    }

    /// The buffer that typing goes to: the value or the name of the selected row.
    pub open spec fn active_buffer(&self) -> TextBuffer
        recommends
            self.headers@.len() > 0,
    {
        let row = self.headers@[self.selected_index as int];
        if self.editing_value { row.1 } else { row.0 }
    }

    /// An editor holding the single row `Content-Type: application/json`,
    /// with its name selected and both cursors at the ends.
    pub fn new() -> (m: Self)
        ensures
            m.headers@.len() == 1,
            m.headers@[0].0@ == ("Content-Type"@, "Content-Type"@.len()),
            m.headers@[0].1@ == ("application/json"@, "application/json"@.len()),
            m.selected_index == 0,
            !m.editing_value,
    {
        let mut headers: Vec<(TextBuffer, TextBuffer)> = Vec::new();
        headers.push(
            (
                TextBuffer::from_string(String::from_str("Content-Type")),
                TextBuffer::from_string(String::from_str("application/json")),
            ),
        );
        HeaderManager { headers, selected_index: 0, editing_value: false }
    }

    /// Adds an empty row at the end and selects its name.
    pub fn add_new(&mut self)
        ensures
            rows_view(final(self).headers@) == rows_view(old(self).headers@).push(
                ((Seq::<char>::empty(), 0nat), (Seq::<char>::empty(), 0nat)),
            ),
            final(self).selected_index == old(self).headers@.len(),
            !final(self).editing_value,
    {
        self.headers.push((TextBuffer::new(), TextBuffer::new()));
        self.selected_index = self.headers.len() - 1;
        self.editing_value = false;
        assert(rows_view(self.headers@) =~= rows_view(old(self).headers@).push(
            ((Seq::<char>::empty(), 0nat), (Seq::<char>::empty(), 0nat)),
        ));
    }

    /// Removes the selected row, if there is one; the selection stays at the
    /// same position, or moves up one when the last row went.
    pub fn remove_current(&mut self)
        requires
            old(self).selection_in_range(),
        ensures
            old(self).headers@.len() == 0 ==> *final(self) == *old(self),
            old(self).headers@.len() > 0 ==> {
                &&& rows_view(final(self).headers@) == rows_view(old(self).headers@).remove(
                    old(self).selected_index as int,
                )
                &&& final(self).selected_index == if old(self).selected_index
                    >= final(self).headers@.len() && old(self).selected_index > 0 {
                    (old(self).selected_index - 1) as usize
                } else {
                    old(self).selected_index
                }
                &&& final(self).editing_value == old(self).editing_value
            },
            final(self).selection_in_range(),
    {
        if self.headers.len() > 0 {
            let ghost old_rows = self.headers@;
            self.headers.remove(self.selected_index);
            assert(rows_view(self.headers@) =~= rows_view(old_rows).remove(
                old(self).selected_index as int,
            ));
            if self.selected_index >= self.headers.len() && self.selected_index > 0 {
                self.selected_index -= 1;
            }
        }
    }

    /// The buffer that typing goes to, if there is any row.
    pub fn get_active_buffer_mut(&mut self) -> (r: Option<&mut TextBuffer>)
        requires
            old(self).selection_in_range(),
        ensures
            old(self).headers@.len() == 0 <==> r is None,
            r is None ==> *final(self) == *old(self),
            r matches Some(b) ==> {
                &&& *b == old(self).active_buffer()
                &&& final(self).headers@.len() == old(self).headers@.len()
                &&& final(self).selected_index == old(self).selected_index
                &&& final(self).editing_value == old(self).editing_value
                &&& final(self).active_buffer() == *final(b)
                &&& forall|i: int|
                    0 <= i < old(self).headers@.len() && i != old(self).selected_index
                        ==> final(self).headers@[i] == old(self).headers@[i]
                &&& old(self).editing_value ==> final(self).headers@[old(self).selected_index as int].0
                    == old(self).headers@[old(self).selected_index as int].0
                &&& !old(self).editing_value ==> final(self).headers@[old(self).selected_index as int].1
                    == old(self).headers@[old(self).selected_index as int].1
            },
    {
        if self.headers.is_empty() {
            return None;
        }
        let pair = &mut self.headers[self.selected_index];
        if self.editing_value {
            Some(&mut pair.1)
        } else {
            Some(&mut pair.0)
        }
    }
}

} // verus!
