//! Argument record reserved for commands that take structured input.

use vstd::prelude::*;

verus! {

/// A structured command argument: a text and a signed number.
#[derive(Debug, PartialEq, Eq)]
pub struct MyCustomArgumentType {
    pub foo: String,
    pub bar: i32,
}

/// Mathematical value of a [`MyCustomArgumentType`].
pub struct ArgumentView {
    pub foo: Seq<char>,
    pub bar: int,
}

impl View for MyCustomArgumentType {
    type V = ArgumentView;

    open spec fn view(&self) -> ArgumentView {
        ArgumentView { foo: self.foo@, bar: self.bar as int }
    }
}

impl Clone for MyCustomArgumentType {
    fn clone(&self) -> (copy: MyCustomArgumentType)
        ensures
            copy@ == self@,
    {
        MyCustomArgumentType { foo: self.foo.clone(), bar: self.bar }
    }
}

} // verus!
