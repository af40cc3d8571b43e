use vstd::prelude::*;

verus! {

/// What a lazily created buffer holds: nothing while it was never touched.
pub open spec fn contents<T>(q: Option<Seq<T>>) -> Seq<T> {
    match q {
        Some(s) => s,
        None => Seq::empty(),
    }
}

/// Number of items held by a lazily created buffer.
pub open spec fn pending_len<T>(q: Option<Seq<T>>) -> nat {
    contents(q).len()
}

/// The buffer after appending `items` behind what it held.
pub open spec fn after_add<T>(q: Option<Seq<T>>, items: Seq<T>) -> Option<Seq<T>> {
    Some(contents(q) + items)
}

/// The batch that taking at most `max` items hands out: the oldest `max`
/// when more are pending, else everything; nothing from an untouched buffer.
pub open spec fn batch_taken<T>(q: Option<Seq<T>>, max: nat) -> Option<Seq<T>> {
    match q {
        None => None,
        Some(s) => if s.len() > max {
            Some(s.take(max as int))
        } else {
            Some(s)
        },
    }
}

/// The buffer left behind once `batch_taken(q, max)` is removed from it.
pub open spec fn after_take<T>(q: Option<Seq<T>>, max: nat) -> Option<Seq<T>> {
    match q {
        None => None,
        Some(s) => if s.len() > max {
            Some(s.skip(max as int))
        } else {
            Some(Seq::empty())
        },
    }
}

/// The items of an optional vector, as an optional sequence.
pub open spec fn seq_of<T>(r: Option<Vec<T>>) -> Option<Seq<T>> {
    match r {
        Some(v) => Some(v@),
        None => None,
    }
}

/// An ordered holding area for pending items, created on first use.
///
/// `queue` is `None` until the first `add`; afterwards it holds the pending
/// items, oldest first.
pub struct UploadQueue<T> {
    pub queue: Option<Vec<T>>,
}

impl<T> View for UploadQueue<T> {
    type V = Option<Seq<T>>;

    open spec fn view(&self) -> Option<Seq<T>> {
        seq_of(self.queue)
    }
}

impl<T> UploadQueue<T> {
    /// An untouched buffer.
    pub fn new() -> (r: Self)
        ensures
            r@ == None::<Seq<T>>,
    {
        UploadQueue { queue: None }
    }

    /// Appends `items` behind the pending ones, keeping their order.
    pub fn add(&mut self, items: Vec<T>)
        ensures
            final(self)@ == after_add(old(self)@, items@),
            pending_len(final(self)@) == pending_len(old(self)@) + items@.len(),
    {
        let mut q = match self.queue.take() {
            Some(v) => v,
            None => Vec::new(),
        };
        let mut items = items;
        q.append(&mut items);
        self.queue = Some(q);
    }

    /// Number of pending items.
    pub fn get_count(&self) -> (r: usize)
        ensures
            r == pending_len(self@),
    {
        match &self.queue {
            Some(q) => q.len(),
            None => 0,
        }
    }

    /// Removes and returns at most `max_amount` pending items, oldest first.
    ///
    /// An untouched buffer gives `None` and stays untouched. When more than
    /// `max_amount` items are pending, the oldest `max_amount` leave and the
    /// rest stay in order; otherwise every pending item leaves (an empty
    /// batch from a buffer that was used and is now empty).
    pub fn get_items_to_upload(&mut self, max_amount: usize) -> (r: Option<Vec<T>>)
        ensures
            seq_of(r) == batch_taken(old(self)@, max_amount as nat),
            final(self)@ == after_take(old(self)@, max_amount as nat),
            old(self)@ is None <==> r is None,
            old(self)@ is None ==> final(self)@ is None,
            pending_len(old(self)@) > max_amount ==> {
                &&& r matches Some(b)
                &&& b@ == contents(old(self)@).take(max_amount as int)
                &&& final(self)@ == Some(contents(old(self)@).skip(max_amount as int))
            },
            old(self)@ is Some && pending_len(old(self)@) <= max_amount ==> {
                &&& r matches Some(b)
                &&& b@ == contents(old(self)@)
                &&& final(self)@ == Some(Seq::<T>::empty())
            },
    {
        match self.queue.take() {
            None => None,
            Some(mut q) => {
                if q.len() > max_amount {
                    let rest = q.split_off(max_amount);
                    self.queue = Some(rest);
                    Some(q)
                } else {
                    self.queue = Some(Vec::new());
                    Some(q)
                }
            },
        }
    }
}

} // verus!
