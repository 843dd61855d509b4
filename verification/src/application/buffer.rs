use std::collections::VecDeque;
use vstd::prelude::*;

verus! {

/// What a producer does when the buffer it feeds is full.
#[derive(Debug, Clone, Copy, PartialEq, Eq, Structural)]
pub enum BackpressurePolicy {
    /// The element is refused and the producer has to wait for room.
    Block,
    /// The oldest element is discarded to admit the new one.
    DropOldest,
}

/// What became of an element offered to a buffer.
#[derive(Debug, PartialEq, Eq)]
pub enum PushOutcome<T> {
    /// The element was appended; nothing was lost.
    Accepted,
    /// The element was admitted at the price of the oldest one, carried here.
    Displaced(T),
    /// The buffer is full and blocks: the element comes back to the producer.
    Refused(T),
}

/// The contents of a buffer after `item` was offered to it.
pub open spec fn contents_after_push<T>(
    contents: Seq<T>,
    capacity: nat,
    policy: BackpressurePolicy,
    item: T,
) -> Seq<T> {
    if contents.len() < capacity {
        contents.push(item)
    } else {
        match policy {
            BackpressurePolicy::Block => contents,
            BackpressurePolicy::DropOldest => contents.push(item).drop_first(),
        }
    }
}

/// What the producer is told when it offers `item`.
pub open spec fn outcome_of_push<T>(
    contents: Seq<T>,
    capacity: nat,
    policy: BackpressurePolicy,
    item: T,
) -> PushOutcome<T> {
    if contents.len() < capacity {
        PushOutcome::Accepted
    } else {
        match policy {
            BackpressurePolicy::Block => PushOutcome::Refused(item),
            BackpressurePolicy::DropOldest => PushOutcome::Displaced(contents.push(item).first()),
        }
    }
}

/// The contents of a buffer after its consumer took one element.
pub open spec fn contents_after_pop<T>(contents: Seq<T>) -> Seq<T> {
    if contents.len() > 0 {
        contents.drop_first()
    } else {
        contents
    }
}

/// The element the consumer sees next.
pub open spec fn oldest_of<T>(contents: Seq<T>) -> Option<T> {
    if contents.len() > 0 {
        Some(contents.first())
    } else {
        None
    }
}

/// The contents of a buffer after every element of `items` was offered in turn.
pub open spec fn contents_after_pushes<T>(
    contents: Seq<T>,
    capacity: nat,
    policy: BackpressurePolicy,
    items: Seq<T>,
) -> Seq<T>
    decreases items.len(),
{
    if items.len() == 0 {
        contents
    } else {
        contents_after_push(
            contents_after_pushes(contents, capacity, policy, items.drop_last()),
            capacity,
            policy,
            items.last(),
        )
    }
}

/// A bounded first-in, first-out queue between one producer and one consumer.
///
/// Its view is the queued elements, oldest first.
pub struct BoundedBuffer<T> {
    items: VecDeque<T>,
    capacity: usize,
    policy: BackpressurePolicy,
}

impl<T> View for BoundedBuffer<T> {
    type V = Seq<T>;

    closed spec fn view(&self) -> Seq<T> {
        self.items@
    }
}

impl<T> BoundedBuffer<T> {
    pub closed spec fn spec_capacity(&self) -> usize {
        self.capacity
    }

    pub closed spec fn spec_policy(&self) -> BackpressurePolicy {
        self.policy
    }

    /// The buffer never holds more than its capacity.
    pub closed spec fn wf(&self) -> bool {
        self.items@.len() <= self.capacity
    }

    /// An empty buffer for at most `capacity` elements.
    pub fn new(capacity: usize, policy: BackpressurePolicy) -> (buffer: Self)
        ensures
            buffer.wf(),
            buffer@ == Seq::<T>::empty(),
            buffer.capacity() == capacity,
            buffer.policy() == policy,
    {
        BoundedBuffer { items: VecDeque::new(), capacity, policy }
    }

    #[verifier::when_used_as_spec(spec_capacity)]
    pub fn capacity(&self) -> (capacity: usize)
        ensures
            capacity == self.spec_capacity(),
    {
        self.capacity
    }

    #[verifier::when_used_as_spec(spec_policy)]
    pub fn policy(&self) -> (policy: BackpressurePolicy)
        ensures
            policy == self.spec_policy(),
    {
        self.policy
    }

    pub fn len(&self) -> (len: usize)
        ensures
            len == self@.len(),
    {
        self.items.len()
    }

    pub fn is_empty(&self) -> (empty: bool)
        ensures
            empty <==> self@.len() == 0,
    {
        self.items.len() == 0
    }

    /// Whether the next element offered would not simply be appended.
    pub fn is_full(&self) -> (full: bool)
        ensures
            full <==> self@.len() >= self.capacity(),
    {
        self.items.len() >= self.capacity
    }

    /// Offers `item` at the tail. A buffer with room appends it. A full one
    /// keeps its contents and hands the element back under
    /// [`BackpressurePolicy::Block`], and gives up its oldest element for it
    /// under [`BackpressurePolicy::DropOldest`].
    pub fn push(&mut self, item: T) -> (outcome: PushOutcome<T>)
        requires
            old(self).wf(),
        ensures
            final(self).wf(),
            final(self).capacity() == old(self).capacity(),
            final(self).policy() == old(self).policy(),
            final(self)@ == contents_after_push(
                old(self)@,
                old(self).capacity() as nat,
                old(self).policy(),
                item,
            ),
            outcome == outcome_of_push(
                old(self)@,
                old(self).capacity() as nat,
                old(self).policy(),
                item,
            ),
    {
        if self.items.len() < self.capacity {
            self.items.push_back(item);
            PushOutcome::Accepted
        } else {
            match self.policy {
                BackpressurePolicy::Block => PushOutcome::Refused(item),
                BackpressurePolicy::DropOldest => {
                    match self.items.pop_front() {
                        Some(oldest) => {
                            self.items.push_back(item);
                            assert(self.items@ =~= old(self).items@.push(item).drop_first());
                            PushOutcome::Displaced(oldest)
                        },
                        None => {
                            assert(self.items@ =~= old(self).items@.push(item).drop_first());
                            PushOutcome::Displaced(item)
                        },
                    }
                },
            }
        }
    }

    /// Takes the oldest element, if there is one.
    pub fn pop(&mut self) -> (item: Option<T>)
        requires
            old(self).wf(),
        ensures
            final(self).wf(),
            final(self).capacity() == old(self).capacity(),
            final(self).policy() == old(self).policy(),
            final(self)@ == contents_after_pop(old(self)@),
            item == oldest_of(old(self)@),
    {
        self.items.pop_front()
    }

    /// The oldest element, left in place.
    pub fn peek(&self) -> (item: Option<&T>)
        ensures
            item == match oldest_of(self@) {
                Some(oldest) => Some(&oldest),
                None => None,
            },
    {
        if self.items.len() > 0 {
            Some(&self.items[0])
        } else {
            None
        }
    }

    /// Discards everything queued and tells how many elements that were.
    pub fn clear(&mut self) -> (discarded: usize)
        requires
            old(self).wf(),
        ensures
            final(self).wf(),
            final(self).capacity() == old(self).capacity(),
            final(self).policy() == old(self).policy(),
            final(self)@ == Seq::<T>::empty(),
            discarded == old(self)@.len(),
    {
        let discarded = self.items.len();
        self.items.clear();
        discarded
    }
}

/// A buffer that respects its capacity still does so after any element is
/// offered to it or taken from it, under either policy.
pub proof fn law_capacity_is_never_exceeded<T>(
    contents: Seq<T>,
    capacity: nat,
    policy: BackpressurePolicy,
    items: Seq<T>,
)
    requires
        contents.len() <= capacity,
    ensures
        contents_after_pushes(contents, capacity, policy, items).len() <= capacity,
        contents_after_pop(contents).len() <= capacity,
    decreases items.len(),
{
    if items.len() > 0 {
        law_capacity_is_never_exceeded(contents, capacity, policy, items.drop_last());
    }
}

/// Under `Block`, offering a run of elements appends as many of them as
/// there is room for, in the order offered, and turns the rest away: what
/// was queued before stays in front and nothing is reordered.
pub proof fn law_block_keeps_the_first<T>(contents: Seq<T>, capacity: nat, items: Seq<T>)
    requires
        contents.len() <= capacity,
    ensures
        contents_after_pushes(contents, capacity, BackpressurePolicy::Block, items) == contents
            + items.take(
            if items.len() <= capacity - contents.len() {
                items.len() as int
            } else {
                capacity - contents.len()
            },
        ),
    decreases items.len(),
{
    let room = capacity - contents.len();
    let admitted = if items.len() <= room {
        items.len() as int
    } else {
        room
    };
    if items.len() == 0 {
        assert(contents + items.take(admitted) =~= contents);
    } else {
        let earlier = items.drop_last();
        law_block_keeps_the_first(contents, capacity, earlier);
        let before = contents_after_pushes(contents, capacity, BackpressurePolicy::Block, earlier);
        if items.len() <= room {
            assert(earlier.take(earlier.len() as int) =~= earlier);
            assert(before.push(items.last()) =~= contents + items.take(admitted));
        } else {
            assert(earlier.take(room) =~= items.take(room));
        }
    }
}

/// Under `DropOldest`, offering a run of elements leaves the buffer with
/// the newest elements of what was queued followed by what was offered, as
/// many as fit, in the order in which they were offered.
pub proof fn law_drop_oldest_keeps_the_last<T>(contents: Seq<T>, capacity: nat, items: Seq<T>)
    requires
        contents.len() <= capacity,
    ensures
        contents_after_pushes(contents, capacity, BackpressurePolicy::DropOldest, items) == (
        contents + items).skip(
            if contents.len() + items.len() <= capacity {
                0
            } else {
                contents.len() + items.len() - capacity
            },
        ),
    decreases items.len(),
{
    let all = contents + items;
    let excess = if all.len() <= capacity {
        0
    } else {
        all.len() - capacity
    };
    if items.len() == 0 {
        assert(all.skip(excess) =~= contents);
    } else {
        let earlier = items.drop_last();
        law_drop_oldest_keeps_the_last(contents, capacity, earlier);
        let before = contents_after_pushes(
            contents,
            capacity,
            BackpressurePolicy::DropOldest,
            earlier,
        );
        let earlier_all = contents + earlier;
        assert(earlier_all.push(items.last()) =~= all);
        if all.len() <= capacity {
            assert(earlier_all.skip(0) =~= earlier_all);
            assert(before.push(items.last()) =~= all.skip(excess));
        } else if earlier_all.len() <= capacity {
            assert(earlier_all.skip(0) =~= earlier_all);
            assert(before.push(items.last()).drop_first() =~= all.skip(excess));
        } else {
            assert(before.push(items.last()).drop_first() =~= all.skip(excess));
        }
    }
}

/// One element more than an empty `DropOldest` buffer can hold leaves it
/// with all but the first of them, in the order offered.
pub proof fn law_one_too_many_drops_the_first<T>(capacity: nat, items: Seq<T>)
    requires
        items.len() == capacity + 1,
    ensures
        contents_after_pushes(
            Seq::<T>::empty(),
            capacity,
            BackpressurePolicy::DropOldest,
            items,
        ) == items.skip(1),
        items.skip(1).len() == capacity,
{
    law_drop_oldest_keeps_the_last(Seq::<T>::empty(), capacity, items);
    assert(Seq::<T>::empty() + items =~= items);
}

/// One use of a buffer: its producer offers an element, or its consumer
/// takes one.
pub enum BufferUse<T> {
    Offer(T),
    Take,
}

/// What a buffer that started empty has seen.
pub struct BufferHistory<T> {
    /// What is queued, oldest first.
    pub contents: Seq<T>,
    /// Every element that was let in, in the order offered.
    pub admitted: Seq<T>,
    /// Every element that has left, taken or discarded, in the order of leaving.
    pub departed: Seq<T>,
}

/// The history of a buffer that started empty and was used as `uses` says.
pub open spec fn history_of<T>(
    capacity: nat,
    policy: BackpressurePolicy,
    uses: Seq<BufferUse<T>>,
) -> BufferHistory<T>
    decreases uses.len(),
{
    if uses.len() == 0 {
        BufferHistory {
            contents: Seq::<T>::empty(),
            admitted: Seq::<T>::empty(),
            departed: Seq::<T>::empty(),
        }
    } else {
        let before = history_of(capacity, policy, uses.drop_last());
        match uses.last() {
            BufferUse::Offer(item) => BufferHistory {
                contents: contents_after_push(before.contents, capacity, policy, item),
                admitted: match outcome_of_push(before.contents, capacity, policy, item) {
                    PushOutcome::Refused(_) => before.admitted,
                    _ => before.admitted.push(item),
                },
                departed: match outcome_of_push(before.contents, capacity, policy, item) {
                    PushOutcome::Displaced(oldest) => before.departed.push(oldest),
                    _ => before.departed,
                },
            },
            BufferUse::Take => BufferHistory {
                contents: contents_after_pop(before.contents),
                admitted: before.admitted,
                departed: match oldest_of(before.contents) {
                    Some(oldest) => before.departed.push(oldest),
                    None => before.departed,
                },
            },
        }
    }
}

/// First in, first out: however a buffer is used, the elements that have
/// left it followed by the elements it holds are the elements it let in, in
/// the order they were offered. Nothing is reordered, nothing appears twice
/// and nothing is made up; the buffer never holds more than its capacity.
pub proof fn law_first_in_first_out<T>(
    capacity: nat,
    policy: BackpressurePolicy,
    uses: Seq<BufferUse<T>>,
)
    ensures
        history_of(capacity, policy, uses).departed + history_of(capacity, policy, uses).contents
            == history_of(capacity, policy, uses).admitted,
        history_of(capacity, policy, uses).contents.len() <= capacity,
    decreases uses.len(),
{
    let now = history_of(capacity, policy, uses);
    if uses.len() == 0 {
        assert(now.departed + now.contents =~= now.admitted);
    } else {
        law_first_in_first_out(capacity, policy, uses.drop_last());
        let before = history_of(capacity, policy, uses.drop_last());
        assert(before.departed + before.contents == before.admitted);
        assert(now.departed + now.contents =~= now.admitted);
    }
}


} // verus!
