//! A host that borrows the plug-in it drives: the caller keeps the plug-in and
//! finds it changed when the host is done with it.

use vstd::prelude::*;
use vstd::string::StringExecFns;
use std::fmt::Debug;
use crate::plugin::{indent, Plug};

verus! {

/// The name a borrowing host gives to its plug-in when it runs an operation.
pub open spec fn host_given_name() -> Seq<char> {
    "Joe"@
}

/// The message a borrowing host sends to its plug-in when it runs an
/// operation.
pub open spec fn host_message() -> Seq<char> {
    "pluggin called from Demo"@
}

/// A host that may hold one plug-in, which it borrows for as long as it lives.
#[derive(Debug)]
pub struct Demo<'a, T> where T: Plug + Debug + 'a {
    pluggin: Option<&'a mut T>,
}

impl<'a, T> Demo<'a, T> where T: Plug + Debug + 'a {
    /// The borrow the host holds, if any.
    pub closed spec fn plugged(&self) -> Option<&'a mut T> {
        self.pluggin
    }

    /// A host without a plug-in.
    pub fn new() -> (demo: Self)
        ensures
            demo.plugged().is_none(),
    {
        Self { pluggin: None }
    }

    /// Registers `p`, as it is now, in place of any plug-in the host held.
    pub fn accept(&mut self, p: &'a mut T)
        ensures
            final(self).plugged() matches Some(held) && *held == *old(p) && *final(held) == *final(p),
    {
        self.pluggin = Some(p);
    }

    /// Runs the host's operation and returns the text it puts out: `msg` on a
    /// line of its own and, if the host holds a plug-in, the plug-in's answer to
    /// the host's message. The plug-in is renamed before it is asked, and the
    /// caller that lent it finds it renamed.
    pub fn do_op(&mut self, msg: &str) -> (output: String)
        ensures
            match final(self).plugged() {
                Some(plug) => {
                    &&& old(self).plugged() matches Some(before) && *final(before) == *final(plug)
                    &&& (*plug).label() == host_given_name()
                    &&& output@ == indent() + msg@ + (*plug).answer(host_message())
                },
                None => old(self).plugged().is_none() && output@ == indent() + msg@,
            },
    {
        let mut output = String::from_str("\n  ");
        output.append(msg);
        match &mut self.pluggin {
            Some(plug) => {
                plug.name("Joe");
                let line = plug.do_plug_op("pluggin called from Demo");
                output.append(line.as_str());
            },
            None => {},
        }
        output
    }
}

} // verus!
