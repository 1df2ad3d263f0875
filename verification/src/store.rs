//! The holder of the latest completed search results and the selection
//! cursor that the list view moves through.

use vstd::prelude::*;

use crate::item::{ResultItem, ThumbImage};

verus! {

/// Mathematical model of a [`ResultStore`]: the items in provider order
/// and the selected position, if any.
#[verifier::ext_equal]
pub struct StoreModel {
    pub items: Seq<ResultItem>,
    pub sel: Option<int>,
}

/// Where the cursor stands after one step forward: a first step selects
/// the top of the list, later steps wrap from the last entry to the first,
/// and an empty list keeps no selection.
pub open spec fn next_sel(sel: Option<int>, len: int) -> Option<int> {
    if len <= 0 {
        None
    } else {
        match sel {
            None => Some(0int),
            Some(i) => Some(if i + 1 == len { 0int } else { i + 1 }),
        }
    }
}

/// Where the cursor stands after one step backward: a first step selects
/// the bottom of the list, later steps wrap from the first entry to the
/// last, and an empty list keeps no selection.
pub open spec fn prev_sel(sel: Option<int>, len: int) -> Option<int> {
    if len <= 0 {
        None
    } else {
        match sel {
            None => Some(len - 1),
            Some(i) => Some(if i == 0 { len - 1 } else { i - 1 }),
        }
    }
}

/// The cursor after `k` steps forward.
pub open spec fn iter_next(sel: Option<int>, len: int, k: nat) -> Option<int>
    decreases k,
{
    if k == 0 {
        sel
    } else {
        next_sel(iter_next(sel, len, (k - 1) as nat), len)
    }
}

/// The latest completed search results plus a selection cursor.
pub struct ResultStore {
    items: Vec<ResultItem>,
    selection: Option<usize>,
}

impl View for ResultStore {
    type V = StoreModel;

    closed spec fn view(&self) -> StoreModel {
        StoreModel {
            items: self.items@,
            sel: match self.selection {
                Some(i) => Some(i as int),
                None => None,
            },
        }
    }
}

impl ResultStore {
    /// The selection is either absent or a valid index.
    pub open spec fn wf(self) -> bool {
        self@.sel matches Some(i) ==> 0 <= i < self@.items.len()
    }

    /// A store starts empty, with nothing selected.
    pub fn new() -> (r: Self)
        ensures
            r.wf(),
            r@.items.len() == 0,
            r@.sel is None,
    {
        ResultStore { items: Vec::new(), selection: None }
    }

    pub fn len(&self) -> (r: usize)
        ensures
            r == self@.items.len(),
    {
        self.items.len()
    }

    /// Swaps the whole sequence for the new one and clears the selection.
    pub fn replace(&mut self, items: Vec<ResultItem>)
        ensures
            final(self).wf(),
            final(self)@ == (StoreModel { items: items@, sel: None }),
    {
        self.items = items;
        self.selection = None;
    }

    /// Moves the cursor one step forward, wrapping past the end.
    pub fn select_next(&mut self)
        requires
            old(self).wf(),
        ensures
            final(self).wf(),
            final(self)@.items == old(self)@.items,
            final(self)@.sel == next_sel(old(self)@.sel, old(self)@.items.len() as int),
    {
        let len = self.items.len();
        if len == 0 {
            self.selection = None;
        } else {
            self.selection = match self.selection {
                None => Some(0),
                Some(i) => Some(if i + 1 == len { 0 } else { i + 1 }),
            };
        }
    }

    /// Moves the cursor one step backward, wrapping past the start.
    pub fn select_previous(&mut self)
        requires
            old(self).wf(),
        ensures
            final(self).wf(),
            final(self)@.items == old(self)@.items,
            final(self)@.sel == prev_sel(old(self)@.sel, old(self)@.items.len() as int),
    {
        let len = self.items.len();
        if len == 0 {
            self.selection = None;
        } else {
            self.selection = match self.selection {
                None => Some(len - 1),
                Some(i) => Some(if i == 0 { len - 1 } else { i - 1 }),
            };
        }
    }

    /// The item at `index`, read-only; `None` past the end.
    pub fn get(&self, index: usize) -> (r: Option<&ResultItem>)
        ensures
            index < self@.items.len() ==> (r matches Some(item) && *item == self@.items[
                index as int
            ]),
            index >= self@.items.len() ==> r is None,
    {
        if index < self.items.len() {
            Some(&self.items[index])
        } else {
            None
        }
    }

    /// The selected position, if any.
    pub fn selected_index(&self) -> (r: Option<usize>)
        ensures
            match self@.sel {
                Some(i) => r matches Some(ri) && ri as int == i,
                None => r is None,
            },
    {
        self.selection
    }

    /// The selected item, read-only; `None` when nothing is selected.
    pub fn selected(&self) -> (r: Option<&ResultItem>)
        requires
            self.wf(),
        ensures
            match self@.sel {
                Some(i) => r matches Some(item) && *item == self@.items[i],
                None => r is None,
            },
    {
        match self.selection {
            Some(i) => Some(&self.items[i]),
            None => None,
        }
    }

    /// Stores a decoded image on the item at `index`. A stale index (the
    /// sequence may have been replaced since the download started) or an
    /// already resolved thumbnail leaves the store unchanged.
    pub fn set_thumbnail(&mut self, index: usize, image: ThumbImage) -> (r: bool)
        requires
            old(self).wf(),
        ensures
            final(self).wf(),
            final(self)@.sel == old(self)@.sel,
            index >= old(self)@.items.len() ==> !r && final(self)@ == old(self)@,
            index < old(self)@.items.len() ==> {
                let it = old(self)@.items[index as int];
                &&& r == it.accepts_image()
                &&& r ==> final(self)@.items == old(self)@.items.update(
                    index as int,
                    it.with_thumb(crate::item::Thumb::Resolved { image }),
                )
                &&& !r ==> final(self)@ == old(self)@
            },
    {
        if index >= self.items.len() {
            return false;
        }
        let item = &mut self.items[index];
        let stored = item.resolve_thumb(image);
        proof {
            if !stored {
                assert(self@.items =~= old(self)@.items);
            }
        }
        stored
    }

    /// If the item at `index` still has an unrequested thumbnail URL, marks
    /// it pending and hands the URL back for the caller to download. A
    /// stale index leaves the store unchanged.
    pub fn request_thumbnail(&mut self, index: usize) -> (r: Option<String>)
        requires
            old(self).wf(),
        ensures
            final(self).wf(),
            final(self)@.sel == old(self)@.sel,
            index >= old(self)@.items.len() ==> r is None && final(self)@ == old(self)@,
            index < old(self)@.items.len() ==> {
                let it = old(self)@.items[index as int];
                match it.spec_thumb_url() {
                    Some(u) => {
                        &&& r matches Some(ru) && ru@ == u@
                        &&& final(self)@.items == old(self)@.items.update(
                            index as int,
                            it.with_thumb(crate::item::Thumb::Pending { url: u }),
                        )
                    },
                    None => r is None && final(self)@ == old(self)@,
                }
            },
    {
        if index >= self.items.len() {
            return None;
        }
        let item = &mut self.items[index];
        let url = item.request_thumb();
        proof {
            if old(self)@.items[index as int].spec_thumb_url() is None {
                assert(self@.items =~= old(self)@.items);
            }
        }
        url
    }
}

/// With `n` items in the list, `n` steps forward bring the cursor back to
/// where it stood; in particular the cursor first selected (index 0) is
/// selected again. One step backward from the top selects the bottom.
pub proof fn lemma_selection_wraps(i: int, len: int)
    requires
        0 <= i < len,
    ensures
        iter_next(Some(i), len, len as nat) == Some(i),
        next_sel(None, len) == Some(0int),
        prev_sel(Some(0int), len) == Some(len - 1),
{
    lemma_iter_next_adds(Some(i), len, i as nat, (len - i) as nat);
    lemma_iter_next_forward(i, len, (len - 1 - i) as nat);
    assert(iter_next(Some(i), len, (len - 1 - i) as nat) == Some(len - 1));
    assert(iter_next(Some(i), len, (len - i) as nat) == next_sel(
        iter_next(Some(i), len, (len - i - 1) as nat),
        len,
    ));
    assert(iter_next(Some(i), len, (len - i) as nat) == Some(0int));
    lemma_iter_next_forward(0, len, i as nat);
}

/// From no selection, the first step forward selects the top of the
/// list, and one full cycle later the cursor is back at the top.
pub proof fn lemma_full_cycle_from_none(len: int)
    requires
        1 <= len,
    ensures
        iter_next(None, len, (len + 1) as nat) == Some(0int),
{
    lemma_selection_wraps(0, len);
    lemma_iter_next_adds(None, len, len as nat, 1nat);
    assert(iter_next(None, len, 0nat) == None::<int>);
    assert(iter_next(None, len, 1nat) == next_sel(None, len));
}

/// On an empty list the cursor never appears: any number of steps in
/// either direction leaves the selection absent.
pub proof fn lemma_empty_store_inert(sel: Option<int>, k: nat)
    ensures
        next_sel(sel, 0) is None,
        prev_sel(sel, 0) is None,
        iter_next(None, 0, k) is None,
    decreases k,
{
    if k > 0 {
        lemma_empty_store_inert(sel, (k - 1) as nat);
    }
}

/// Steps forward that stay below the end of the list move the cursor by
/// exactly one index each.
proof fn lemma_iter_next_forward(i: int, len: int, k: nat)
    requires
        0 <= i,
        i + k < len,
    ensures
        iter_next(Some(i), len, k) == Some(i + k),
    decreases k,
{
    if k > 0 {
        lemma_iter_next_forward(i, len, (k - 1) as nat);
    }
}

/// Stepping `a + b` times is stepping `a` times, then `b` times.
proof fn lemma_iter_next_adds(sel: Option<int>, len: int, a: nat, b: nat)
    ensures
        iter_next(sel, len, a + b) == iter_next(iter_next(sel, len, b), len, a),
    decreases a,
{
    if a > 0 {
        lemma_iter_next_adds(sel, len, (a - 1) as nat, b);
    }
}

} // verus!
