use vstd::prelude::*;

use crate::tu::File;

verus! {

/// A resolved position: the file, the 1-based line and column, and the
/// 0-based byte offset from the start of the file. The file is the null file
/// where the position lies outside every file.
#[derive(PartialEq, Eq, Structural, Clone, Copy, Debug)]
pub struct SourceLoc {
    pub file: File,
    pub line: u32,
    pub column: u32,
    pub offset: u32,
}

impl SourceLoc {
    pub fn new(file: File, line: u32, column: u32, offset: u32) -> (r: SourceLoc)
        ensures
            r == (SourceLoc { file, line, column, offset }),
    {
        SourceLoc { file, line, column, offset }
    }

    /// The file, or `None` where the position lies outside every file.
    pub fn known_file(&self) -> (r: Option<File>)
        ensures
            r == (if self.file.ptr_spec() == 0 {
                None
            } else {
                Some(self.file)
            }),
    {
        if self.file.is_null() {
            None
        } else {
            Some(self.file)
        }
    }
}

/// An unresolved position inside a translation unit, as the engine's opaque
/// value: two handle words and one integer word. It owns nothing and is valid
/// only while that unit lives.
#[derive(Clone, Copy, Debug)]
pub struct SourceLocation {
    ptr_data: [usize; 2],
    int_data: u32,
}

impl SourceLocation {
    pub closed spec fn ptr_data_spec(&self) -> [usize; 2] {
        self.ptr_data
    }

    pub closed spec fn int_data_spec(&self) -> u32 {
        self.int_data
    }

    pub fn from_obj(ptr_data: [usize; 2], int_data: u32) -> (r: SourceLocation)
        ensures
            r.ptr_data_spec() == ptr_data,
            r.int_data_spec() == int_data,
    {
        SourceLocation { ptr_data, int_data }
    }

    pub fn ptr_data(&self) -> (r: [usize; 2])
        ensures
            r == self.ptr_data_spec(),
    {
        self.ptr_data
    }

    pub fn int_data(&self) -> (r: u32)
        ensures
            r == self.int_data_spec(),
    {
        self.int_data
    }
}

} // verus!
