use vstd::prelude::*;

verus! {

/// Why a ticket operation was refused.
#[derive(Clone, Copy, PartialEq, Eq, Structural, Debug)]
pub enum TicketError {
    /// The ticket was read before the command that creates its resource ran.
    NotReady,
    /// The ticket was already resolved; a ticket is resolved at most once.
    DoubleResolve,
}

/// The state of a single ticket cell.
#[derive(Clone, Copy, PartialEq, Eq, Structural, Debug)]
pub enum TicketState {
    Pending,
    Resolved(usize),
}

impl TicketState {
    /// A fresh ticket: nothing has been created for it yet.
    pub fn new() -> (r: TicketState)
        ensures
            r == TicketState::Pending,
    {
        TicketState::Pending
    }

    /// Records the handle of the created resource; refused if one is already recorded.
    pub fn resolve(&mut self, handle: usize) -> (r: Result<(), TicketError>)
        ensures
            (*old(self) is Pending) <==> r is Ok,
            r is Ok ==> *final(self) == TicketState::Resolved(handle),
            r is Err ==> r == Err::<(), TicketError>(TicketError::DoubleResolve) && *final(self)
                == *old(self),
    {
        match *self {
            TicketState::Pending => {
                *self = TicketState::Resolved(handle);
                Ok(())
            },
            TicketState::Resolved(_) => Err(TicketError::DoubleResolve),
        }
    }

    /// The recorded handle, or `NotReady` while the ticket is pending.
    pub fn read(&self) -> (r: Result<usize, TicketError>)
        ensures
            r == match *self {
                TicketState::Pending => Err(TicketError::NotReady),
                TicketState::Resolved(h) => Ok(h),
            },
    {
        match *self {
            TicketState::Pending => Err(TicketError::NotReady),
            TicketState::Resolved(h) => Ok(h),
        }
    }
}

/// The state of ticket `id` in a board whose slots are `slots`: tickets beyond the
/// last slot have never been resolved.
pub open spec fn slot_state(slots: Seq<Option<usize>>, id: usize) -> TicketState {
    if id < slots.len() && slots[id as int] is Some {
        TicketState::Resolved(slots[id as int]->Some_0)
    } else {
        TicketState::Pending
    }
}

/// The ticket cells of one resource kind, indexed by ticket number. Its view maps
/// each resolved ticket to its handle; a ticket outside the map is pending.
pub struct TicketBoard {
    slots: Vec<Option<usize>>,
}

impl View for TicketBoard {
    type V = Map<usize, usize>;

    closed spec fn view(&self) -> Map<usize, usize> {
        Map::new(
            |k: usize| slot_state(self.slots@, k) is Resolved,
            |k: usize| slot_state(self.slots@, k)->Resolved_0,
        )
    }
}

/// The state of ticket `id` on a board whose resolved tickets are `m`.
pub open spec fn state_in(m: Map<usize, usize>, id: usize) -> TicketState {
    if m.contains_key(id) {
        TicketState::Resolved(m[id])
    } else {
        TicketState::Pending
    }
}

impl TicketBoard {
    /// The state of ticket `id`.
    pub open spec fn state_of(&self, id: usize) -> TicketState {
        state_in(self@, id)
    }

    proof fn lemma_state(&self, id: usize)
        ensures
            self.state_of(id) == slot_state(self.slots@, id),
    {
    }

    /// A board on which every ticket is pending.
    pub fn new() -> (r: TicketBoard)
        ensures
            r@ == Map::<usize, usize>::empty(),
    {
        let r = TicketBoard { slots: Vec::new() };
        assert(r@ =~= Map::<usize, usize>::empty());
        r
    }

    /// The state of ticket `id`.
    pub fn state(&self, id: usize) -> (r: TicketState)
        ensures
            r == self.state_of(id),
    {
        proof {
            self.lemma_state(id);
        }
        if id < self.slots.len() {
            match self.slots[id] {
                Some(h) => TicketState::Resolved(h),
                None => TicketState::Pending,
            }
        } else {
            TicketState::Pending
        }
    }

    /// Whether ticket `id` is resolved.
    pub fn is_resolved(&self, id: usize) -> (r: bool)
        ensures
            r == self@.contains_key(id),
    {
        let st = self.state(id);
        match st {
            TicketState::Pending => false,
            TicketState::Resolved(_) => true,
        }
    }

    /// Reads ticket `id`: its handle, or `NotReady` while it is pending.
    pub fn read(&self, id: usize) -> (r: Result<usize, TicketError>)
        ensures
            r == match self.state_of(id) {
                TicketState::Pending => Err(TicketError::NotReady),
                TicketState::Resolved(h) => Ok(h),
            },
    {
        let st = self.state(id);
        st.read()
    }

    /// Resolves ticket `id` to `handle`; a second resolution is refused and changes nothing.
    pub fn resolve(&mut self, id: usize, handle: usize) -> (r: Result<(), TicketError>)
        ensures
            r is Ok <==> !old(self)@.contains_key(id),
            r is Err ==> r == Err::<(), TicketError>(TicketError::DoubleResolve) && final(self)@
                == old(self)@,
            r is Ok ==> final(self)@ == old(self)@.insert(id, handle),
    {
        proof {
            self.lemma_state(id);
        }
        if id < self.slots.len() {
            if self.slots[id].is_some() {
                return Err(TicketError::DoubleResolve);
            }
        }
        let ghost orig = self.slots@;
        while self.slots.len() <= id
            invariant
                forall|k: usize| #[trigger] slot_state(self.slots@, k) == slot_state(orig, k),
                slot_state(orig, id) is Pending,
                orig.len() <= self.slots@.len(),
            decreases id + 1 - self.slots.len(),
        {
            let ghost prev = self.slots@;
            self.slots.push(None);
            assert forall|k: usize| #[trigger]
                slot_state(self.slots@, k) == slot_state(orig, k) by {
                assert(slot_state(prev, k) == slot_state(orig, k));
                if k < prev.len() {
                    assert(self.slots@[k as int] == prev[k as int]);
                }
            }
        }
        let ghost prev = self.slots@;
        self.slots.set(id, Some(handle));
        assert forall|k: usize| #[trigger]
            slot_state(self.slots@, k) == if k == id {
                TicketState::Resolved(handle)
            } else {
                slot_state(orig, k)
            } by {
            assert(slot_state(prev, k) == slot_state(orig, k));
        }
        assert(self@ =~= old(self)@.insert(id, handle));
        Ok(())
    }
}

} // verus!
