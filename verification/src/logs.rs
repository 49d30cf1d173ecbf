use vstd::prelude::*;

verus! {

/// One chunk of output that a container wrote.
#[derive(Debug)]
pub struct ContainerLog {
    pub name: String,
    pub level: String,
    pub data: String,
}

/// A log entry as three character sequences: container name, level, data.
pub struct ContainerLogView {
    pub name: Seq<char>,
    pub level: Seq<char>,
    pub data: Seq<char>,
}

impl View for ContainerLog {
    type V = ContainerLogView;

    open spec fn view(&self) -> ContainerLogView {
        ContainerLogView { name: self.name@, level: self.level@, data: self.data@ }
    }
}

/// The queue of container output that waits to be shipped: entries leave it
/// in the order they came in.
#[allow(non_camel_case_types)]
pub struct GLOBAL_CONTAINER_LOGGER_LOCK {
    logs: Vec<ContainerLog>,
}

impl View for GLOBAL_CONTAINER_LOGGER_LOCK {
    type V = Seq<ContainerLogView>;

    closed spec fn view(&self) -> Seq<ContainerLogView> {
        self.logs@.map_values(|l: ContainerLog| l@)
    }
}

impl GLOBAL_CONTAINER_LOGGER_LOCK {
    /// An empty queue.
    pub fn new() -> (r: Self)
        ensures
            r@ == Seq::<ContainerLogView>::empty(),
    {
        let r = GLOBAL_CONTAINER_LOGGER_LOCK { logs: Vec::new() };
        assert(r@ =~= Seq::<ContainerLogView>::empty());
        r
    }

    /// The number of entries waiting.
    pub fn len(&self) -> (r: usize)
        ensures
            r == self@.len(),
    {
        self.logs.len()
    }

    /// Appends an entry at the back.
    pub fn push(&mut self, val: ContainerLog)
        ensures
            final(self)@ == old(self)@.push(val@),
    {
        let ghost before = self.logs@;
        self.logs.push(val);
        assert(self@ =~= old(self)@.push(val@)) by {
            assert(self.logs@ == before.push(val));
        }
    }

    /// Takes the entry at the front, if there is one.
    pub fn pop(&mut self) -> (r: Option<ContainerLog>)
        ensures
            old(self)@.len() == 0 ==> r is None && final(self)@ == old(self)@,
            old(self)@.len() > 0 ==> r is Some && r->0@ == old(self)@[0] && final(self)@
                == old(self)@.drop_first(),
    {
        if self.logs.len() > 0 {
            let ghost before = self.logs@;
            let first = self.logs.remove(0);
            assert(self@ =~= old(self)@.drop_first()) by {
                assert(self.logs@ =~= before.drop_first());
            }
            Some(first)
        } else {
            None
        }
    }

    /// Drops every waiting entry.
    pub fn flush(&mut self)
        ensures
            final(self)@ == Seq::<ContainerLogView>::empty(),
    {
        while self.logs.len() > 0
            decreases self.logs.len(),
        {
            self.logs.pop();
        }
        assert(self@ =~= Seq::<ContainerLogView>::empty());
    }
}

} // verus!
