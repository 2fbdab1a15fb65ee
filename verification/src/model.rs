//! The part of a Solidity compiler AST that the rules read. Node kinds the
//! rules do not look at are kept as `Other`.

use vstd::prelude::*;

verus! {

/// The root of a source unit's AST: its top-level nodes.
#[derive(Debug)]
pub struct AstRoot {
    pub nodes: Vec<SourceUnitNode>,
}

/// A top-level node of a source unit.
#[derive(Debug)]
pub enum SourceUnitNode {
    ContractDefinition(ContractDefinition),
    Other,
}

/// A contract: its name and its member nodes.
#[derive(Debug)]
pub struct ContractDefinition {
    pub name: String,
    pub nodes: Vec<ContractNode>,
}

/// A member node of a contract.
#[derive(Debug)]
pub enum ContractNode {
    FunctionDefinition(FunctionDefinition),
    Other,
}

/// A function definition: the fields the rules judge by.
#[derive(Debug)]
pub struct FunctionDefinition {
    pub name: String,
    pub kind: Option<String>,
    pub visibility: Option<String>,
    pub modifiers: Vec<ModifierInvocation>,
    pub body: Option<Block>,
}

/// One modifier applied to a function.
#[derive(Debug)]
pub struct ModifierInvocation {
    pub modifier_name: Option<ModifierName>,
}

/// The name of a modifier; only plain identifiers are read.
#[derive(Debug)]
pub enum ModifierName {
    Identifier { name: String },
    Other,
}

/// A block of statements.
#[derive(Debug)]
pub struct Block {
    pub statements: Vec<Statement>,
}

/// A statement; only expression statements are read.
#[derive(Debug)]
pub enum Statement {
    ExpressionStatement(ExpressionStatement),
    Other,
}

/// A statement that consists of one expression.
#[derive(Debug)]
pub struct ExpressionStatement {
    pub expression: Expression,
}

/// An expression: calls, member accesses and identifiers are read.
#[derive(Debug)]
pub enum Expression {
    FunctionCall(FunctionCall),
    MemberAccess(MemberAccess),
    Identifier { name: String },
    Other,
}

/// A call: the expression that names what is called.
#[derive(Debug)]
pub struct FunctionCall {
    pub expression: Box<Expression>,
}

/// An access `base.member`: the member's name.
#[derive(Debug)]
pub struct MemberAccess {
    pub member_name: String,
}

} // verus!
