//! The loaded binary that parsers inspect.

use vstd::prelude::*;

verus! {

/// What a [`BinaryView`] stands for: the name of its format and its bytes.
pub struct ViewModel {
    pub view_type: Seq<char>,
    pub contents: Seq<u8>,
}

/// A loaded binary. Parsers read it; nothing here changes it.
pub struct BinaryView {
    view_type: String,
    contents: Vec<u8>,
}

impl View for BinaryView {
    type V = ViewModel;

    closed spec fn view(&self) -> ViewModel {
        ViewModel { view_type: self.view_type@, contents: self.contents@ }
    }
}

impl BinaryView {
    /// A view of `contents`, identified as the format `view_type`.
    pub fn new(view_type: String, contents: Vec<u8>) -> (view: BinaryView)
        ensures
            view@ == (ViewModel { view_type: view_type@, contents: contents@ }),
    {
        BinaryView { view_type, contents }
    }

    /// The name of the format, such as `"ELF"`.
    pub fn view_type(&self) -> (tag: &String)
        ensures
            tag@ == self@.view_type,
    {
        &self.view_type
    }

    /// The bytes of the binary.
    pub fn contents(&self) -> (bytes: &Vec<u8>)
        ensures
            bytes@ == self@.contents,
    {
        &self.contents
    }
}

} // verus!
