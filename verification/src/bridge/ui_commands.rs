//! What the windowing layer asks of the editor.

use vstd::prelude::*;

verus! {

/// One intent of the user, to be sent to the editor.
#[derive(Debug, PartialEq, Eq)]
pub enum UiCommand {
    Resize { width: u64, height: u64 },
    Keyboard(String),
    MouseButton { action: String, column: u64, row: u64 },
    Scroll { direction: String, column: u64, row: u64 },
    Drag { column: u64, row: u64 },
    FocusLost,
    FocusGained,
}

impl UiCommand {
    pub fn is_resize(&self) -> (resize: bool)
        ensures
            resize == (self is Resize),
    {
        match self {
            UiCommand::Resize { .. } => true,
            _ => false,
        }
    }
}

/// The test that picks out the commands that are no resizes.
pub open spec fn is_other() -> spec_fn(UiCommand) -> bool {
    |command: UiCommand| !(command is Resize)
}

/// The last resize of a batch, if it holds one.
pub open spec fn last_resize(batch: Seq<UiCommand>) -> Option<UiCommand>
    decreases batch.len(),
{
    if batch.len() == 0 {
        None
    } else if batch.last() is Resize {
        Some(batch.last())
    } else {
        last_resize(batch.drop_last())
    }
}

/// The commands that are dispatched for a batch, in the order in which they
/// are started: the last resize, if the batch holds one, and then every
/// command that is no resize, in the order of arrival.
pub open spec fn dispatch_order(batch: Seq<UiCommand>) -> Seq<UiCommand> {
    match last_resize(batch) {
        Some(resize) => seq![resize] + batch.filter(is_other()),
        None => batch.filter(is_other()),
    }
}

/// The last resize of a batch is the resize that no other resize follows; a
/// batch without a resize has none.
pub proof fn lemma_last_resize(batch: Seq<UiCommand>)
    ensures
        match last_resize(batch) {
            Some(resize) => exists|at: int|
                {
                    &&& 0 <= at < batch.len()
                    &&& #[trigger] batch[at] == resize
                    &&& resize is Resize
                    &&& forall|later: int| at < later < batch.len() ==> !(batch[later] is Resize)
                },
            None => forall|at: int| 0 <= at < batch.len() ==> !(batch[at] is Resize),
        },
    decreases batch.len(),
{
    if batch.len() > 0 {
        let earlier = batch.drop_last();
        lemma_last_resize(earlier);
        if batch.last() is Resize {
            assert(batch[batch.len() - 1] == batch.last());
        } else {
            match last_resize(earlier) {
                Some(resize) => {
                    let at = choose|at: int|
                        {
                            &&& 0 <= at < earlier.len()
                            &&& #[trigger] earlier[at] == resize
                            &&& resize is Resize
                            &&& forall|later: int|
                                at < later < earlier.len() ==> !(earlier[later] is Resize)
                        };
                    assert(batch[at] == resize);
                    assert forall|later: int| at < later < batch.len() implies !(
                    batch[later] is Resize) by {
                        if later < earlier.len() {
                            assert(earlier[later] == batch[later]);
                        }
                    }
                },
                None => {
                    assert forall|at: int| 0 <= at < batch.len() implies !(
                    batch[at] is Resize) by {
                        if at < earlier.len() {
                            assert(earlier[at] == batch[at]);
                        }
                    }
                },
            }
        }
    }
}

/// Of a batch that holds resizes, exactly one is dispatched, and first: the
/// one that arrived last. After it come the commands that are no resizes, all
/// of them and in the order in which they arrived.
pub proof fn lemma_one_resize_first(batch: Seq<UiCommand>)
    requires
        exists|at: int| 0 <= at < batch.len() && #[trigger] batch[at] is Resize,
    ensures
        dispatch_order(batch).len() >= 1,
        last_resize(batch) == Some(dispatch_order(batch)[0]),
        exists|at: int|
            {
                &&& 0 <= at < batch.len()
                &&& #[trigger] batch[at] == dispatch_order(batch)[0]
                &&& batch[at] is Resize
                &&& forall|later: int| at < later < batch.len() ==> !(batch[later] is Resize)
            },
        dispatch_order(batch).skip(1) == batch.filter(is_other()),
        forall|at: int|
            1 <= at < dispatch_order(batch).len() ==> !(#[trigger] dispatch_order(batch)[at]
                is Resize),
{
    lemma_last_resize(batch);
    let others = batch.filter(is_other());
    assert(dispatch_order(batch).skip(1) =~= others);
    assert forall|at: int| 1 <= at < dispatch_order(batch).len() implies !(
    #[trigger] dispatch_order(batch)[at] is Resize) by {
        batch.lemma_filter_pred(is_other(), at - 1);
        assert(dispatch_order(batch)[at] == others[at - 1]);
    }
}

/// A batch without a resize is dispatched as it arrived.
pub proof fn lemma_without_resize(batch: Seq<UiCommand>)
    requires
        forall|at: int| 0 <= at < batch.len() ==> !(#[trigger] batch[at] is Resize),
    ensures
        dispatch_order(batch) == batch,
    decreases batch.len(),
{
    lemma_last_resize(batch);
    if batch.len() > 0 {
        let earlier = batch.drop_last();
        assert forall|at: int| 0 <= at < earlier.len() implies !(#[trigger] earlier[at]
            is Resize) by {
            assert(earlier[at] == batch[at]);
        }
        lemma_without_resize(earlier);
        lemma_last_resize(earlier);
        earlier.lemma_filter_push(batch.last(), is_other());
        assert(earlier.push(batch.last()) =~= batch);
    } else {
        assert(batch.filter(is_other()) =~= batch) by {
            batch.lemma_filter_len(is_other());
        }
    }
}

/// Coalesces the resizes of a batch. Of a storm of resizes only the last one
/// matters to the editor; it is dispatched first, and the other commands
/// follow in the order in which they arrived.
pub fn coalesce(batch: Vec<UiCommand>) -> (dispatched: Vec<UiCommand>)
    ensures
        dispatched@ == dispatch_order(batch@),
{
    let ghost arrived = batch@;
    let mut resize: Option<UiCommand> = None;
    let mut others: Vec<UiCommand> = Vec::new();
    for command in iter: batch
        invariant
            iter.seq() == arrived,
            resize == last_resize(arrived.take(iter.index() as int)),
            others@ == arrived.take(iter.index() as int).filter(is_other()),
    {
        proof {
            let seen = arrived.take(iter.index() as int);
            let next = arrived.take(iter.index() + 1);
            assert(next.drop_last() =~= seen);
            assert(next =~= seen.push(command));
            seen.lemma_filter_push(command, is_other());
        }
        if command.is_resize() {
            resize = Some(command);
        } else {
            others.push(command);
        }
    }
    assert(arrived.take(arrived.len() as int) =~= arrived);
    let mut dispatched: Vec<UiCommand> = Vec::new();
    match resize {
        Some(resize) => {
            dispatched.push(resize);
        },
        None => {},
    }
    dispatched.append(&mut others);
    dispatched
}

} // verus!
