//! Peripherals for the `IN` and `OUT` instructions.
use vstd::prelude::*;

verus! {

/// A peripheral that hands the processor one byte at a time.
pub trait InputDevice {
    /// The bytes that this peripheral will give, the next one first. The
    /// default, nothing, suits a peripheral that never gives a byte.
    open spec fn pending(&self) -> Seq<u8> {
        Seq::empty()
    }

    /// The next byte, or `None` when there is none to give.
    fn input(&mut self) -> (r: Option<u8>)
        ensures
            old(self).pending().len() == 0 ==> r is None && final(self).pending() == old(self).pending(),
            old(self).pending().len() > 0 ==> r == Some(old(self).pending()[0]) && final(self).pending()
                == old(self).pending().drop_first(),
    ;
}

/// A peripheral that takes one byte at a time from the processor.
pub trait OutputDevice {
    /// The bytes that this peripheral has taken, the most recent last. A
    /// verified implementation defines it: the default, nothing, cannot meet
    /// the contract of `output`.
    open spec fn written(&self) -> Seq<u8> {
        Seq::empty()
    }

    /// Take a byte.
    fn output(&mut self, val: u8)
        ensures
            final(self).written() == old(self).written().push(val),
    ;
}

/// A sequence back to front.
pub open spec fn reversed(s: Seq<u8>) -> Seq<u8> {
    Seq::new(s.len(), |i: int| s[s.len() - 1 - i])
}

/// An input peripheral that gives the bytes of a buffer, last first.
#[derive(Debug, PartialEq, Eq)]
pub struct BufInput {
    input: Vec<u8>,
}

impl View for BufInput {
    type V = Seq<u8>;

    /// The bytes still to give, the next one first.
    closed spec fn view(&self) -> Seq<u8> {
        reversed(self.input@)
    }
}

impl BufInput {
    /// A peripheral that will give the bytes of `v`, from back to front.
    pub fn new(v: Vec<u8>) -> (r: BufInput)
        ensures
            r@ == reversed(v@),
    {
        BufInput { input: v }
    }

    /// Take the next byte: the last of the buffer.
    pub fn next_byte(&mut self) -> (r: Option<u8>)
        ensures
            old(self)@.len() == 0 ==> r is None && final(self)@ == old(self)@,
            old(self)@.len() > 0 ==> r == Some(old(self)@[0]) && final(self)@ == old(self)@.drop_first(),
    {
        let r = self.input.pop();
        proof {
            if old(self).input@.len() > 0 {
                assert(reversed(self.input@) =~= reversed(old(self).input@).drop_first());
            }
        }
        r
    }
}

impl Default for BufInput {
    fn default() -> (r: BufInput)
        ensures
            r@ == Seq::<u8>::empty(),
    {
        let r = BufInput::new(Vec::new());
        assert(r@ =~= Seq::<u8>::empty());
        r
    }
}

impl InputDevice for BufInput {
    closed spec fn pending(&self) -> Seq<u8> {
        self@
    }

    fn input(&mut self) -> (r: Option<u8>) {
        self.next_byte()
    }
}

/// An output peripheral that appends every byte it takes to a buffer.
#[derive(Debug, PartialEq, Eq)]
pub struct BufOutput {
    output: Vec<u8>,
}

impl View for BufOutput {
    type V = Seq<u8>;

    /// The bytes taken so far, most recent last.
    closed spec fn view(&self) -> Seq<u8> {
        self.output@
    }
}

impl BufOutput {
    /// An empty buffer.
    pub fn new() -> (r: BufOutput)
        ensures
            r@ == Seq::<u8>::empty(),
    {
        BufOutput { output: Vec::new() }
    }

    /// Append a byte.
    pub fn take_byte(&mut self, val: u8)
        ensures
            final(self)@ == old(self)@.push(val),
    {
        self.output.push(val);
    }

    /// All the bytes taken from the processor, most recent last.
    pub fn result(&self) -> (r: Vec<u8>)
        ensures
            r@ == self@,
    {
        let mut out: Vec<u8> = Vec::new();
        let mut i: usize = 0;
        while i < self.output.len()
            invariant
                i <= self.output@.len(),
                out@ == self.output@.subrange(0, i as int),
            decreases self.output@.len() - i,
        {
            out.push(self.output[i]);
            i = i + 1;
            proof {
                assert(out@ =~= self.output@.subrange(0, i as int));
            }
        }
        proof {
            assert(out@ =~= self.output@);
        }
        out
    }
}

impl Default for BufOutput {
    fn default() -> (r: BufOutput)
        ensures
            r@ == Seq::<u8>::empty(),
    {
        BufOutput::new()
    }
}

impl OutputDevice for BufOutput {
    closed spec fn written(&self) -> Seq<u8> {
        self@
    }

    fn output(&mut self, val: u8) {
        self.take_byte(val)
    }
}

/// The number of ports of each kind.
pub const PORTS: usize = 256;

/// The peripherals installed on the ports of a processor: at most one input
/// and one output peripheral per port.
pub struct Peripherals<I, O> {
    inputs: Vec<Option<I>>,
    outputs: Vec<Option<O>>,
}

impl<I, O> Peripherals<I, O> {
    /// One slot of each kind per port.
    pub closed spec fn wf(self) -> bool {
        self.inputs@.len() == PORTS && self.outputs@.len() == PORTS
    }

    /// The input peripheral at `port`, if any.
    pub closed spec fn input_at(self, port: u8) -> Option<I> {
        self.inputs@[port as int]
    }

    /// The output peripheral at `port`, if any.
    pub closed spec fn output_at(self, port: u8) -> Option<O> {
        self.outputs@[port as int]
    }

    /// Whether an input peripheral is installed at `port`.
    pub open spec fn has_input(self, port: u8) -> bool {
        self.input_at(port) is Some
    }

    /// Whether an output peripheral is installed at `port`.
    pub open spec fn has_output(self, port: u8) -> bool {
        self.output_at(port) is Some
    }

    /// No peripheral on any port.
    pub fn new() -> (r: Self)
        ensures
            r.wf(),
            forall|p: u8| !r.has_input(p) && !r.has_output(p),
    {
        let mut inputs: Vec<Option<I>> = Vec::new();
        let mut outputs: Vec<Option<O>> = Vec::new();
        let mut i: usize = 0;
        while i < PORTS
            invariant
                i <= PORTS,
                inputs@.len() == i,
                outputs@.len() == i,
                forall|j: int| 0 <= j < i ==> inputs@[j] is None && outputs@[j] is None,
            decreases PORTS - i,
        {
            inputs.push(None);
            outputs.push(None);
            i = i + 1;
        }
        Peripherals { inputs, outputs }
    }

    /// Install an input peripheral at a port, replacing the one there.
    pub fn install_input(&mut self, port: u8, device: I)
        requires
            old(self).wf(),
        ensures
            final(self).wf(),
            final(self).input_at(port) == Some(device),
            forall|p: u8| p != port ==> final(self).input_at(p) == old(self).input_at(p),
            forall|p: u8| final(self).output_at(p) == old(self).output_at(p),
    {
        self.inputs.set(port as usize, Some(device));
    }

    /// Install an output peripheral at a port, replacing the one there.
    pub fn install_output(&mut self, port: u8, device: O)
        requires
            old(self).wf(),
        ensures
            final(self).wf(),
            final(self).output_at(port) == Some(device),
            forall|p: u8| p != port ==> final(self).output_at(p) == old(self).output_at(p),
            forall|p: u8| final(self).input_at(p) == old(self).input_at(p),
    {
        self.outputs.set(port as usize, Some(device));
    }

    /// The input peripheral installed at a port.
    pub fn input_device(&self, port: u8) -> (r: Option<&I>)
        requires
            self.wf(),
        ensures
            r is Some <==> self.has_input(port),
            r matches Some(d) ==> self.input_at(port) == Some(*d),
    {
        match &self.inputs[port as usize] {
            Some(d) => Some(d),
            None => None,
        }
    }

    /// The output peripheral installed at a port.
    pub fn output_device(&self, port: u8) -> (r: Option<&O>)
        requires
            self.wf(),
        ensures
            r is Some <==> self.has_output(port),
            r matches Some(d) ==> self.output_at(port) == Some(*d),
    {
        match &self.outputs[port as usize] {
            Some(d) => Some(d),
            None => None,
        }
    }
}

impl<I: InputDevice, O: OutputDevice> Peripherals<I, O> {
    /// The bytes that each input peripheral will give, by port.
    pub open spec fn pending_map(self) -> Map<u8, Seq<u8>> {
        Map::new(|p: u8| self.has_input(p), |p: u8| self.input_at(p).unwrap().pending())
    }

    /// The bytes that each output peripheral has taken, by port.
    pub open spec fn written_map(self) -> Map<u8, Seq<u8>> {
        Map::new(|p: u8| self.has_output(p), |p: u8| self.output_at(p).unwrap().written())
    }

    /// Ask the input peripheral at `port` for a byte. `None` where no
    /// peripheral is installed there; else what it gave, its next pending
    /// byte, which it then no longer holds.
    pub fn read_port(&mut self, port: u8) -> (r: Option<Option<u8>>)
        requires
            old(self).wf(),
        ensures
            final(self).wf(),
            !old(self).has_input(port) ==> r is None && *final(self) == *old(self),
            old(self).has_input(port) ==> {
                let q = old(self).pending_map()[port];
                &&& r == Some(if q.len() == 0 { None::<u8> } else { Some(q[0]) })
                &&& final(self).pending_map() == old(self).pending_map().insert(
                    port,
                    if q.len() == 0 { q } else { q.drop_first() },
                )
                &&& final(self).written_map() == old(self).written_map()
            },
    {
        if self.inputs[port as usize].is_none() {
            return None;
        }
        let ghost prev = *self;
        let mut slot: Option<I> = None;
        self.inputs.set_and_swap(port as usize, &mut slot);
        match slot {
            Some(mut d) => {
                let b = d.input();
                let ghost q = prev.input_at(port).unwrap().pending();
                let ghost d2 = d;
                self.inputs.set(port as usize, Some(d));
                proof {
                    assert(self.input_at(port) == Some(d2));
                    assert(self.pending_map() =~= prev.pending_map().insert(
                        port,
                        if q.len() == 0 { q } else { q.drop_first() },
                    ));
                    assert(self.written_map() =~= prev.written_map());
                }
                Some(b)
            },
            None => None,
        }
    }

    /// Hand a byte to the output peripheral at `port`.
    pub fn write_port(&mut self, port: u8, val: u8)
        requires
            old(self).wf(),
            old(self).has_output(port),
        ensures
            final(self).wf(),
            final(self).written_map() == old(self).written_map().insert(port, old(self).written_map()[port].push(val)),
            final(self).pending_map() == old(self).pending_map(),
    {
        let ghost prev = *self;
        let mut slot: Option<O> = None;
        self.outputs.set_and_swap(port as usize, &mut slot);
        match slot {
            Some(mut d) => {
                d.output(val);
                let ghost d2 = d;
                self.outputs.set(port as usize, Some(d));
                proof {
                    assert(self.output_at(port) == Some(d2));
                    assert(self.written_map() =~= prev.written_map().insert(
                        port,
                        prev.written_map()[port].push(val),
                    ));
                    assert(self.pending_map() =~= prev.pending_map());
                }
            },
            None => {},
        }
    }
}

} // verus!
