//! The structured command and the flat buffer that stands for it on the bus.

use vstd::prelude::*;
use vstd::std_specs::cmp::PartialEqSpecImpl;

verus! {

/// One logical operation against a slave device: a register byte and the
/// payload that follows it.
#[derive(Debug)]
pub struct Command {
    /// I2C command or register.
    pub cmd: u8,
    /// Data to write after the register byte.
    pub data: Vec<u8>,
}

/// The wire form of a command: the register byte at position 0, the payload
/// behind it in order.
pub open spec fn frame(cmd: u8, data: Seq<u8>) -> Seq<u8> {
    seq![cmd] + data
}

impl Command {
    /// The buffer that every transport operation is handed for this command.
    pub open spec fn framed(&self) -> Seq<u8> {
        frame(self.cmd, self.data@)
    }

    /// Flattens the command into the buffer a transport expects.
    pub fn into_buffer(self) -> (buffer: Vec<u8>)
        ensures
            buffer@ == self.framed(),
    {
        let mut buffer = self.data;
        buffer.insert(0, self.cmd);
        buffer
    }
}

/// The framing rule, position by position: one byte more than the payload,
/// the register byte first, every payload byte one place further on.
pub proof fn lemma_frame_layout(cmd: u8, data: Seq<u8>)
    ensures
        frame(cmd, data).len() == data.len() + 1,
        frame(cmd, data)[0] == cmd,
        forall|i: int| 0 <= i < data.len() ==> frame(cmd, data)[i + 1] == data[i],
        frame(cmd, data).skip(1) == data,
{
    assert(frame(cmd, data).skip(1) =~= data);
}

impl PartialEq for Command {
    /// Two commands are equal when both the register byte and the payload are.
    fn eq(&self, other: &Self) -> (equal: bool) {
        let same_payload = self.data == other.data;
        proof {
            if same_payload {
                assert(self.data@ =~= other.data@);
            }
        }
        self.cmd == other.cmd && same_payload
    }
}

impl Eq for Command {}

impl PartialEqSpecImpl for Command {
    open spec fn obeys_eq_spec() -> bool {
        true
    }

    open spec fn eq_spec(&self, other: &Self) -> bool {
        self.cmd == other.cmd && self.data@ == other.data@
    }
}

} // verus!
