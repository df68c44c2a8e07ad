//! Identifier and sequence-number types.
//!
//! Sequence numbers increase per machine. They are not globally unique, their
//! order matters, and they may be shown to a client. Instruction and output
//! sequence numbers are signed 64-bit integers although they are never negative.

use crate::text::{decimal, i64_to_decimal};
use vstd::prelude::*;
use vstd::std_specs::convert::FromSpecImpl;

verus! {

/// Sequence number of an instruction on one machine.
#[derive(Copy, Clone, Debug, PartialEq, Eq, Structural, Hash, PartialOrd, Ord)]
pub struct InstructionSeq(pub i64);

impl InstructionSeq {
    /// The sequence number that follows this one.
    pub fn next(&self) -> (r: InstructionSeq)
        requires
            self.0 < i64::MAX,
        ensures
            r.0 == self.0 + 1,
    {
        InstructionSeq(self.0 + 1)
    }

    /// The sequence number in decimal.
    pub fn to_string(&self) -> (r: String)
        ensures
            r@ == decimal(self.0 as int),
    {
        i64_to_decimal(self.0)
    }
}

impl Default for InstructionSeq {
    fn default() -> (r: InstructionSeq)
        ensures
            r.0 == 0,
    {
        InstructionSeq(0)
    }
}

impl From<InstructionSeq> for i64 {
    fn from(val: InstructionSeq) -> (r: i64) {
        val.0
    }
}

impl FromSpecImpl<InstructionSeq> for i64 {
    open spec fn obeys_from_spec() -> bool {
        true
    }

    open spec fn from_spec(val: InstructionSeq) -> i64 {
        val.0
    }
}

impl From<i64> for InstructionSeq {
    fn from(id: i64) -> (r: InstructionSeq) {
        InstructionSeq(id)
    }
}

impl FromSpecImpl<i64> for InstructionSeq {
    open spec fn obeys_from_spec() -> bool {
        true
    }

    open spec fn from_spec(id: i64) -> InstructionSeq {
        InstructionSeq(id)
    }
}

/// Correlation token that the client gives to one execute request.
#[derive(Copy, Clone, Debug, PartialEq, Eq, Structural, Hash, PartialOrd, Ord)]
pub struct RequestSeq(pub u32);

impl Default for RequestSeq {
    fn default() -> (r: RequestSeq)
        ensures
            r.0 == 0,
    {
        RequestSeq(0)
    }
}

impl From<u32> for RequestSeq {
    fn from(id: u32) -> (r: RequestSeq) {
        RequestSeq(id)
    }
}

impl FromSpecImpl<u32> for RequestSeq {
    open spec fn obeys_from_spec() -> bool {
        true
    }

    open spec fn from_spec(id: u32) -> RequestSeq {
        RequestSeq(id)
    }
}

/// Position of one output chunk within the output of one instruction. It starts
/// again at zero for every instruction.
#[derive(Copy, Clone, Debug, PartialEq, Eq, Structural, Hash)]
pub struct MachineOutputSeq(pub i64);

impl MachineOutputSeq {
    /// The position that follows this one.
    pub fn next(&self) -> (r: MachineOutputSeq)
        requires
            self.0 < i64::MAX,
        ensures
            r.0 == self.0 + 1,
    {
        MachineOutputSeq(self.0 + 1)
    }

    /// The position of the first chunk of an instruction.
    pub fn zero() -> (r: MachineOutputSeq)
        ensures
            r.0 == 0,
    {
        MachineOutputSeq(0)
    }
}

impl Default for MachineOutputSeq {
    fn default() -> (r: MachineOutputSeq)
        ensures
            r.0 == 0,
    {
        MachineOutputSeq(0)
    }
}

impl From<MachineOutputSeq> for i64 {
    fn from(val: MachineOutputSeq) -> (r: i64) {
        val.0
    }
}

impl FromSpecImpl<MachineOutputSeq> for i64 {
    open spec fn obeys_from_spec() -> bool {
        true
    }

    open spec fn from_spec(val: MachineOutputSeq) -> i64 {
        val.0
    }
}

impl From<i64> for MachineOutputSeq {
    fn from(id: i64) -> (r: MachineOutputSeq) {
        MachineOutputSeq(id)
    }
}

impl FromSpecImpl<i64> for MachineOutputSeq {
    open spec fn obeys_from_spec() -> bool {
        true
    }

    open spec fn from_spec(id: i64) -> MachineOutputSeq {
        MachineOutputSeq(id)
    }
}

/// Name by which the service knows one machine.
#[derive(Clone, Debug, PartialEq, Eq, Hash)]
pub struct MachineName(pub String);

impl View for MachineName {
    type V = Seq<char>;

    open spec fn view(&self) -> Seq<char> {
        self.0@
    }
}

impl MachineName {
    /// The name as text.
    pub fn to_string(&self) -> (r: String)
        ensures
            r@ == self@,
    {
        self.0.clone()
    }
}

impl From<MachineName> for String {
    fn from(val: MachineName) -> (r: String) {
        val.0
    }
}

impl FromSpecImpl<MachineName> for String {
    open spec fn obeys_from_spec() -> bool {
        true
    }

    open spec fn from_spec(val: MachineName) -> String {
        val.0
    }
}

impl From<String> for MachineName {
    fn from(name: String) -> (r: MachineName) {
        MachineName(name)
    }
}

impl FromSpecImpl<String> for MachineName {
    open spec fn obeys_from_spec() -> bool {
        true
    }

    open spec fn from_spec(name: String) -> MachineName {
        MachineName(name)
    }
}

} // verus!
