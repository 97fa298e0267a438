//! The ports of a node.

use vstd::prelude::*;
use crate::chassis::NicHandle;
use crate::switch::PortType;

verus! {

/// Whether a port has a cable.
#[derive(Debug, Clone, Copy, PartialEq, Eq, Structural)]
pub enum PortState {
    Up,
    Down,
    Unknown,
}

/// The medium of a port.
#[derive(Debug, Clone, Copy, PartialEq, Eq, Structural)]
pub enum PortKind {
    Ethernet,
}

/// Something that has a name to show.
pub trait PortDisplay {
    /// The name as text.
    spec fn spec_name(&self) -> Seq<char>;

    fn name(&self) -> (s: String)
        ensures
            s@ == self.spec_name(),
    ;
}

/// A port of a switch: its index, its mode and the handle of its interface.
#[derive(Debug, Clone, Copy, PartialEq, Eq)]
pub struct SwitchPort {
    pub index: u16,
    pub mode: PortType,
    pub handle: NicHandle,
}

impl SwitchPort {
    /// The state of the port: up while its interface is connected.
    pub fn state(&self) -> (s: PortState)
        ensures
            s == if self.handle.connected {
                PortState::Up
            } else {
                PortState::Down
            },
    {
        if self.handle.connected() {
            PortState::Up
        } else {
            PortState::Down
        }
    }

    /// The medium of the port.
    pub fn kind(&self) -> (k: PortKind)
        ensures
            k == PortKind::Ethernet,
    {
        PortKind::Ethernet
    }
}

impl PortDisplay for SwitchPort {
    open spec fn spec_name(&self) -> Seq<char> {
        seq!['e', 't', 'h'] + crate::text::spec_decimal_u16(self.index)
    }

    fn name(&self) -> (s: String) {
        let mut s = String::new();
        crate::text::push_char(&mut s, 'e');
        crate::text::push_char(&mut s, 't');
        crate::text::push_char(&mut s, 'h');
        crate::text::push_decimal_u16(&mut s, self.index);
        assert(s@ =~= self.spec_name());
        s
    }
}

/// A named interface.
#[derive(Debug, PartialEq, Eq)]
pub struct Interface {
    name: String,
}

impl Interface {
    /// The interface's name.
    pub closed spec fn spec_name(&self) -> Seq<char> {
        self.name@
    }

    pub fn new(name: String) -> (i: Self)
        ensures
            i.spec_name() == name@,
    {
        Self { name }
    }

    pub fn name(&self) -> (n: &str)
        ensures
            n@ == self.spec_name(),
    {
        self.name.as_str()
    }
}

} // verus!
