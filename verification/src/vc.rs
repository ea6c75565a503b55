//! Names for the values that the task system computes.
//!
//! A `Vc` stands for a value that is computed elsewhere, on demand: it is either the number of a
//! cell, or the task that fills one, with its arguments.
use crate::value::{JsValue, JsValueView};
use vstd::prelude::*;

verus! {

/// An error that a task ended with, by the number under which the task system keeps it.
#[derive(Clone, Copy, Debug, PartialEq, Eq, Hash, Structural)]
pub struct Failure {
    pub cell: u64,
}

/// An asset.
#[derive(Clone, Copy, Debug, PartialEq, Eq, Hash, Structural)]
pub struct AssetVc {
    pub cell: u64,
}

impl AssetVc {
    /// The path of this asset.
    pub fn path(&self) -> (res: FileSystemPathVc)
        ensures
            res == FileSystemPathVc::PathOf(*self),
    {
        FileSystemPathVc::PathOf(*self)
    }
}

/// A path in a file system.
#[derive(Debug, PartialEq, Eq, Hash)]
pub enum FileSystemPathVc {
    Cell(u64),
    /// The path of an asset.
    PathOf(AssetVc),
    /// The directory that holds a path.
    ParentOf(Box<FileSystemPathVc>),
}

impl FileSystemPathVc {
    /// The directory that holds this path.
    pub fn parent(self) -> (res: FileSystemPathVc)
        ensures
            res == FileSystemPathVc::ParentOf(Box::new(self)),
    {
        FileSystemPathVc::ParentOf(Box::new(self))
    }
}

/// The directory of an asset, against which its requests are resolved.
pub open spec fn context_of(source: AssetVc) -> FileSystemPathVc {
    FileSystemPathVc::ParentOf(Box::new(FileSystemPathVc::PathOf(source)))
}

fn clone_path(path: &FileSystemPathVc) -> (res: FileSystemPathVc)
    ensures
        res == *path,
    decreases path,
{
    match path {
        FileSystemPathVc::Cell(cell) => FileSystemPathVc::Cell(*cell),
        FileSystemPathVc::PathOf(asset) => FileSystemPathVc::PathOf(*asset),
        FileSystemPathVc::ParentOf(path) => FileSystemPathVc::ParentOf(Box::new(clone_path(path))),
    }
}

impl Clone for FileSystemPathVc {
    fn clone(&self) -> (res: Self)
        ensures
            res == *self,
    {
        clone_path(self)
    }
}

/// What a request or a path may look like.
#[derive(Debug, PartialEq, Eq, Hash)]
pub enum Pattern {
    /// Exactly this text.
    Constant(String),
    /// The texts that a value may take.
    OfValue(JsValue),
}

/// The mathematical value of a [`Pattern`].
pub enum PatternView {
    Constant(Seq<char>),
    OfValue(JsValueView),
}

impl DeepView for Pattern {
    type V = PatternView;

    open spec fn deep_view(&self) -> PatternView {
        match self {
            Pattern::Constant(text) => PatternView::Constant(text@),
            Pattern::OfValue(value) => PatternView::OfValue(value.deep_view()),
        }
    }
}

impl Clone for Pattern {
    fn clone(&self) -> (res: Self)
        ensures
            res.deep_view() == self.deep_view(),
    {
        match self {
            Pattern::Constant(text) => Pattern::Constant(text.clone()),
            Pattern::OfValue(value) => Pattern::OfValue(value.clone()),
        }
    }
}

/// A pattern of paths.
#[derive(Debug, PartialEq, Eq, Hash)]
pub struct PatternVc {
    pub pattern: Pattern,
}

impl DeepView for PatternVc {
    type V = PatternView;

    open spec fn deep_view(&self) -> PatternView {
        self.pattern.deep_view()
    }
}

impl Clone for PatternVc {
    fn clone(&self) -> (res: Self)
        ensures
            res.deep_view() == self.deep_view(),
    {
        PatternVc { pattern: self.pattern.clone() }
    }
}

/// The request that a pattern parses to.
#[derive(Debug, PartialEq, Eq, Hash)]
pub struct RequestVc {
    pub pattern: Pattern,
}

impl RequestVc {
    /// The request that `pattern` parses to.
    pub fn parse(pattern: Pattern) -> (res: RequestVc)
        ensures
            res.deep_view() == pattern.deep_view(),
    {
        RequestVc { pattern }
    }
}

impl DeepView for RequestVc {
    type V = PatternView;

    open spec fn deep_view(&self) -> PatternView {
        self.pattern.deep_view()
    }
}

impl Clone for RequestVc {
    fn clone(&self) -> (res: Self)
        ensures
            res.deep_view() == self.deep_view(),
    {
        RequestVc { pattern: self.pattern.clone() }
    }
}

} // verus!
