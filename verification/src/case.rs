//! CASE expressions.
//!
//! A CASE expression is put together in steps: [`case`] captures the base that
//! the WHEN values are compared with, [`CaseBuilder::when`] adds one branch at a
//! time, and [`CaseBuilder::end`] or [`CaseBuilder::otherwise`] uses the builder
//! up and hands out the finished node. Until then there is no node: a builder is
//! not an expression.

use crate::expr::{branch_views_of, ExprNode, ExprView};
use vstd::prelude::*;

verus! {

/// A CASE expression in the making.
#[derive(Debug, PartialEq, Eq)]
pub struct CaseBuilder {
    /// The expression that each WHEN value is compared with.
    pub base: Option<Box<ExprNode>>,
    /// The (when, then) branches so far, in the order in which they were added.
    pub branches: Vec<(ExprNode, ExprNode)>,
    /// The ELSE branch, if one is set.
    pub otherwise: Option<Box<ExprNode>>,
}

/// What a [`CaseBuilder`] holds.
pub struct CaseBuilderView {
    pub base: Option<ExprView>,
    pub branches: Seq<(ExprView, ExprView)>,
    pub otherwise: Option<ExprView>,
}

impl View for CaseBuilder {
    type V = CaseBuilderView;

    open spec fn view(&self) -> CaseBuilderView {
        CaseBuilderView {
            base: match self.base {
                Some(b) => Some(b@),
                None => None,
            },
            branches: branch_views_of(self.branches@),
            otherwise: match self.otherwise {
                Some(o) => Some(o@),
                None => None,
            },
        }
    }
}

impl CaseBuilderView {
    /// The node that the builder finishes into.
    pub open spec fn finished(self) -> ExprView {
        ExprView::Case {
            base: match self.base {
                Some(b) => Some(Box::new(b)),
                None => None,
            },
            branches: self.branches,
            otherwise: match self.otherwise {
                Some(o) => Some(Box::new(o)),
                None => None,
            },
        }
    }
}

/// Starts a CASE expression whose WHEN values are compared with `expr`. The
/// builder has no branches yet and no ELSE.
pub fn case(expr: ExprNode) -> (builder: CaseBuilder)
    ensures
        builder@ == (CaseBuilderView {
            base: Some(expr@),
            branches: Seq::empty(),
            otherwise: None,
        }),
{
    let builder = CaseBuilder { base: Some(Box::new(expr)), branches: Vec::new(), otherwise: None };
    assert(builder@.branches =~= Seq::empty());
    builder
}

impl CaseBuilder {
    /// Adds the branch WHEN `when` THEN `then` after the branches that are there.
    pub fn when(self, when: ExprNode, then: ExprNode) -> (builder: CaseBuilder)
        ensures
            builder@ == (CaseBuilderView {
                branches: self@.branches.push((when@, then@)),
                ..self@
            }),
    {
        let CaseBuilder { base, branches, otherwise } = self;
        let mut branches = branches;
        branches.push((when, then));
        let builder = CaseBuilder { base, branches, otherwise };
        assert(builder@.branches =~= self@.branches.push((when@, then@)));
        builder
    }

    /// Sets the ELSE branch and finishes the expression.
    pub fn otherwise(self, else_expr: ExprNode) -> (node: ExprNode)
        ensures
            node@ == (CaseBuilderView { otherwise: Some(else_expr@), ..self@ }).finished(),
    {
        let CaseBuilder { base, branches, otherwise: _ } = self;
        ExprNode::Case { base, branches, otherwise: Some(Box::new(else_expr)) }
    }

    /// Finishes the expression with the branches that were added.
    pub fn end(self) -> (node: ExprNode)
        ensures
            node@ == self@.finished(),
    {
        let CaseBuilder { base, branches, otherwise } = self;
        ExprNode::Case { base, branches, otherwise }
    }
}

} // verus!
