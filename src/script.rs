use vstd::prelude::*;

verus! {

/// A top-level statement of a script.
#[derive(Debug)]
pub enum Statement {
    Event(Event),
    Listener(Listener),
    Behavior(Behavior),
}

/// A sequence of statements.
#[derive(Debug)]
pub struct Block {
    statements: Vec<Statement>,
}

/// A named type with named fields; field names are distinct.
#[derive(Debug)]
pub struct Type {
    identifier: String,
    fields: Vec<(String, Type)>,
}

/// An event: typed arguments and the block that runs when it fires.
#[derive(Debug)]
pub struct Event {
    args: Vec<(String, Type)>,
    executor: Block,
}

/// A listener: the event it waits for and the block it runs.
#[derive(Debug)]
pub struct Listener {
    event: Event,
    executor: Block,
}

/// A named behavior and the block it runs.
#[derive(Debug)]
pub struct Behavior {
    identifier: String,
    executor: Block,
}

impl View for Block {
    type V = Seq<Statement>;

    closed spec fn view(&self) -> Seq<Statement> {
        self.statements@
    }
}

impl Block {
    /// A block of `statements`, in order.
    pub fn new(statements: Vec<Statement>) -> (r: Block)
        ensures
            r@ == statements@,
    {
        Block { statements }
    }

    /// The number of statements in the block.
    pub fn len(&self) -> (r: usize)
        ensures
            r == self@.len(),
    {
        self.statements.len()
    }
}

/// The script machine: listeners by event signature, behaviors, and the world of
/// entities they act on.
pub struct VM {
    listeners: Vec<(u64, Listener)>,
    behaviors: Vec<Behavior>,
}

impl View for VM {
    type V = (Seq<(u64, Listener)>, Seq<Behavior>);

    closed spec fn view(&self) -> (Seq<(u64, Listener)>, Seq<Behavior>) {
        (self.listeners@, self.behaviors@)
    }
}

impl VM {
    /// Takes a parsed script; nothing is built from it yet.
    pub fn create(ast: Block) {
    }

    /// Runs the machine; with no listeners or behaviors wired in yet, it changes
    /// nothing.
    pub fn run(&mut self)
        ensures
            final(self)@ == old(self)@,
    {
    }
}

} // verus!
