use vstd::prelude::*;
use crate::astnode::{ASTNode, NodeView, nodes_view};

verus! {

/// The nodes of the code, with the bytes that their instructions occupy.
#[derive(Debug, PartialEq, Eq)]
pub struct CodeSection {
    pub nodes: Vec<ASTNode>,
    pub size: u64,
}

/// The nodes of the read-only data, with the bytes that their strings occupy.
#[derive(Debug, PartialEq, Eq)]
pub struct DataSection {
    pub nodes: Vec<ASTNode>,
    pub size: u64,
}

/// A section as a value.
pub struct SectionView {
    pub nodes: Seq<NodeView>,
    pub size: u64,
}

impl View for CodeSection {
    type V = SectionView;

    open spec fn view(&self) -> SectionView {
        SectionView { nodes: nodes_view(self.nodes@), size: self.size }
    }
}

impl View for DataSection {
    type V = SectionView;

    open spec fn view(&self) -> SectionView {
        SectionView { nodes: nodes_view(self.nodes@), size: self.size }
    }
}

impl CodeSection {
    /// The code with these nodes and this size.
    pub fn new(nodes: Vec<ASTNode>, size: u64) -> (s: CodeSection)
        ensures
            s@ == (SectionView { nodes: nodes_view(nodes@), size }),
    {
        CodeSection { nodes, size }
    }
}

impl DataSection {
    /// The read-only data with these nodes and this size.
    pub fn new(nodes: Vec<ASTNode>, size: u64) -> (s: DataSection)
        ensures
            s@ == (SectionView { nodes: nodes_view(nodes@), size }),
    {
        DataSection { nodes, size }
    }
}

} // verus!
