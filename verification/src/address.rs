//! IPv4 addresses and their dotted-decimal notation.

use vstd::prelude::*;
use vstd::string::StringExecFns;
use crate::decimal::{decimal, push_decimal};

verus! {

/// An IPv4 address `a.b.c.d`.
#[derive(Clone, Copy, Debug, PartialEq, Eq, Structural)]
pub struct Ipv4Address {
    pub a: u8,
    pub b: u8,
    pub c: u8,
    pub d: u8,
}

impl Ipv4Address {
    /// The address `a.b.c.d`.
    pub fn new(a: u8, b: u8, c: u8, d: u8) -> (address: Ipv4Address)
        ensures
            address == (Ipv4Address { a, b, c, d }),
    {
        Ipv4Address { a, b, c, d }
    }

    /// The four octets, first to last.
    pub fn octets(&self) -> (octets: [u8; 4])
        ensures
            octets@ == seq![self.a, self.b, self.c, self.d],
    {
        let octets: [u8; 4] = [self.a, self.b, self.c, self.d];
        assert(octets@ =~= seq![self.a, self.b, self.c, self.d]);
        octets
    }

    /// Dotted-decimal notation: the four octets in decimal, separated by dots.
    pub open spec fn dotted(self) -> Seq<char> {
        decimal(self.a as nat) + seq!['.'] + decimal(self.b as nat) + seq!['.'] + decimal(
            self.c as nat,
        ) + seq!['.'] + decimal(self.d as nat)
    }

    /// The address in dotted-decimal notation.
    pub fn to_dotted(&self) -> (text: String)
        ensures
            text@ == self.dotted(),
    {
        proof {
            reveal_strlit(".");
            assert("."@ =~= seq!['.']);
        }
        let mut text = String::new();
        push_decimal(&mut text, self.a as u16);
        text.append(".");
        push_decimal(&mut text, self.b as u16);
        text.append(".");
        push_decimal(&mut text, self.c as u16);
        text.append(".");
        push_decimal(&mut text, self.d as u16);
        assert(text@ =~= self.dotted());
        text
    }
}

} // verus!
