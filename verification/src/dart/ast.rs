//! The syntax tree.
//!
//! Five kinds of node carry the grammar: `Module`, `Item`, `ClassMember`,
//! `Type`, and `Expr` with `Statement`. Wherever one node holds another, it
//! holds it through a `Node` handle, so subtrees are shared and never copied.

use crate::node::Node;
use crate::source::{SourceFile, Span, Symbol};
use vstd::prelude::*;
use vstd::utf8::encode_utf8;

pub use crate::dart::op::{BinOp, BoolBinOp, OverloadedOp, UnOp, ValueBinOp};

verus! {

/// One source file as it was loaded.
///
/// `has_error` tells that the file could not be read or parsed; such a module
/// has no items. A file that parsed to nothing has no items either, so only
/// the flag tells the two apart.
#[derive(Debug)]
pub struct Module {
    pub path: String,
    pub items: Vec<Node<Item>>,
    pub has_error: bool,
}

/// A top-level declaration.
#[derive(Debug)]
pub enum Item {
    LibraryName { metadata: Metadata, path: Vec<Symbol> },
    Import(Metadata, Import),
    Export(Metadata, StringLiteral, Vec<ImportFilter>),
    Part { metadata: Metadata, uri: StringLiteral, module: Node<Module> },
    PartOf { metadata: Metadata, path: Vec<Symbol> },
    Class {
        metadata: Metadata,
        abstract_: bool,
        name: Symbol,
        generics: Vec<Node<TypeParameter>>,
        superclass: Option<Node<Qualified>>,
        mixins: Vec<Node<Qualified>>,
        interfaces: Vec<Node<Qualified>>,
        members: Vec<Node<ClassMember>>,
    },
    MixinClass {
        metadata: Metadata,
        abstract_: bool,
        name: Symbol,
        generics: Vec<Node<TypeParameter>>,
        mixins: Vec<Node<Qualified>>,
        interfaces: Vec<Node<Qualified>>,
    },
    Enum { metadata: Metadata, name: Symbol, values: Vec<Symbol> },
    TypeAlias {
        metadata: Metadata,
        name: Symbol,
        generics: Vec<Node<TypeParameter>>,
        ty: Node<Type>,
    },
    Function(Node<Function>),
    Vars(VarType, Vec<Node<VarDef>>),
}

/// A `show` or `hide` clause of an import or export.
#[derive(Debug)]
pub struct ImportFilter {
    pub hide: bool,
    pub names: Vec<Symbol>,
}

/// An `import` directive.
#[derive(Debug)]
pub struct Import {
    pub uri: StringLiteral,
    pub deferred: bool,
    pub as_ident: Option<Symbol>,
    pub filters: Vec<ImportFilter>,
}

/// A function, method, getter, setter or operator, with or without a body.
#[derive(Debug)]
pub struct Function {
    pub name: FnName,
    pub generics: Vec<Node<TypeParameter>>,
    pub sig: FnSig,
    pub body: Option<FnBody>,
}

/// A declaration inside a class.
#[derive(Debug)]
#[allow(inconsistent_fields)]
pub enum ClassMember {
    Redirect {
        metadata: Metadata,
        method_qualifiers: Vec<MethodQualifiers>,
        name: Option<Symbol>,
        sig: FnSig,
        ty: Node<Type>,
    },
    Constructor {
        metadata: Metadata,
        method_qualifiers: Vec<MethodQualifiers>,
        name: Option<Symbol>,
        sig: FnSig,
        initializers: Vec<ConstructorInitializer>,
        function_body: Option<FnBody>,
    },
    Method(Metadata, Vec<MethodQualifiers>, Node<Function>),
    Fields {
        metadata: Metadata,
        static_: bool,
        var_type: VarType,
        initializers: Vec<Node<VarDef>>,
    },
}

/// A word that may stand before a constructor or method.
#[derive(Copy, Clone, PartialEq, Eq, Debug, Structural)]
pub enum MethodQualifiers {
    External,
    Static,
    Const,
    Final,
    Factory,
}

/// What a function is declared as.
#[derive(Debug)]
pub enum FnName {
    Regular(Symbol),
    Getter(Symbol),
    Setter(Symbol),
    Operator(OverloadedOp),
}

impl Clone for FnName {
    fn clone(&self) -> (twin: Self)
        ensures
            twin == *self,
    {
        match self {
            FnName::Regular(name) => FnName::Regular(name.clone()),
            FnName::Getter(name) => FnName::Getter(name.clone()),
            FnName::Setter(name) => FnName::Setter(name.clone()),
            FnName::Operator(op) => FnName::Operator(*op),
        }
    }
}

/// One entry of the initializer list of a constructor.
#[derive(Debug)]
pub enum ConstructorInitializer {
    Super(Option<Symbol>, Args),
    This(Option<Symbol>, Args),
    Assert(Args),
    Field(bool, Symbol, Node<Expr>),
}

/// One parameter of a generic declaration.
#[derive(Debug)]
pub struct TypeParameter {
    pub metadata: Metadata,
    pub name: Symbol,
    pub extends: Option<Node<Qualified>>,
}

/// A name with its type arguments, and the names it is qualified by: in
/// `a.b.C<T>` the name is `C`, the arguments are `[T]`, and `prefix` leads to
/// `b`, whose own `prefix` leads to `a`.
#[derive(Debug)]
pub struct Qualified {
    pub prefix: Option<Node<Qualified>>,
    pub name: Symbol,
    pub params: Vec<Node<Type>>,
}

/// A type as written. `Infer` stands where none was written.
#[derive(Debug)]
pub enum Type {
    Path(Node<Qualified>),
    FunctionOld(FnSig),
    Function(FnSig),
    Infer,
}

/// An expression.
#[derive(Debug)]
pub enum Expr {
    Unary(UnOp, Node<Expr>),
    Binary(BinOp, Node<Expr>, Node<Expr>),
    Conditional(Node<Expr>, Node<Expr>, Node<Expr>),
    Is(Node<Expr>, Node<Type>),
    IsNot(Node<Expr>, Node<Type>),
    As(Node<Expr>, Node<Type>),
    Suffix(Node<Expr>, Suffix),
    Identifier(Symbol),
    Closure(FnSig, FnBody),
    New { const_: bool, path: Node<Qualified>, args: Args },
    List { const_: bool, element_ty: Option<Node<Type>>, elements: Vec<Node<Expr>> },
    MapLiteral {
        const_: bool,
        kv_ty: Option<(Node<Type>, Node<Type>)>,
        kv: Vec<(Node<Expr>, Node<Expr>)>,
    },
    Number(Symbol),
    String(Vec<StringLiteral>),
    Symbol(SymbolLiteral),
    Paren(Node<Expr>),
    Throw(Node<Expr>),
    Cascade(Node<Expr>, Cascade),
}

/// A symbol literal: `#+` or `#a.b`.
#[derive(Debug)]
pub enum SymbolLiteral {
    Op(OverloadedOp),
    Path(Vec<Symbol>),
}

/// One string literal. `prefix` covers the text up to the first interpolation;
/// each interpolation holds its expression and the text that follows it.
#[derive(Debug)]
pub struct StringLiteral {
    pub raw: bool,
    pub triple: bool,
    pub quote: char,
    pub prefix: Span,
    pub interpolated: Vec<(Node<Expr>, Span)>,
}

/// What follows an expression in a chain: an index, a field, a call.
#[derive(Debug)]
pub enum Suffix {
    Index(Node<Expr>),
    Field(Symbol),
    FieldIfNotNull(Symbol),
    Call(Vec<Node<Type>>, Args),
}

/// One section `..suffixes` of a cascade, with the assignment that may end it.
#[derive(Debug)]
pub struct Cascade {
    pub suffixes: Vec<Suffix>,
    pub assign: Option<(Option<ValueBinOp>, Node<Expr>)>,
}

/// An argument passed by name.
#[derive(Debug)]
pub struct NamedArg {
    pub name: Symbol,
    pub expr: Node<Expr>,
}

/// The arguments of a call.
#[derive(Debug)]
pub struct Args {
    pub unnamed: Vec<Node<Expr>>,
    pub named: Vec<NamedArg>,
}

/// One annotation: `@qualified` or `@qualified(arguments)`.
#[derive(Debug)]
pub struct MetadataItem {
    pub qualified: Node<Qualified>,
    pub arguments: Option<Args>,
}

/// The annotations attached to a declaration.
pub type Metadata = Vec<MetadataItem>;

/// The signature of a function: what it returns, takes, and whether it is
/// asynchronous or a generator.
#[derive(Debug)]
pub struct FnSig {
    pub return_type: Node<Type>,
    pub required: Vec<ArgDef>,
    pub optional: Vec<ArgDef>,
    pub optional_kind: OptionalArgKind,
    pub async_: bool,
    pub generator: bool,
}

/// The body of a function.
#[derive(Debug)]
pub enum FnBody {
    Arrow(Node<Expr>),
    Block(Node<Statement>),
    Native(Option<StringLiteral>),
}

/// Whether the optional parameters of a signature are positional or named.
#[derive(Copy, Clone, PartialEq, Eq, Debug, Structural)]
pub enum OptionalArgKind {
    Positional,
    Named,
}

/// One parameter of a signature.
#[derive(Debug)]
pub struct ArgDef {
    pub metadata: Metadata,
    pub covariant: bool,
    pub ty: VarType,
    pub field: bool,
    pub var: Node<VarDef>,
}

/// The declared type of variables, and how they may change.
#[derive(Debug)]
pub struct VarType {
    pub fcv: FinalConstVar,
    pub ty: Node<Type>,
}

/// Whether a variable is `final`, `const`, or neither.
#[derive(Copy, Clone, PartialEq, Eq, Debug, Structural)]
pub enum FinalConstVar {
    Final,
    Const,
    Var,
}

/// A variable with the value it starts with, if any.
#[derive(Debug)]
pub struct VarDef {
    pub name: Symbol,
    pub init: Option<Node<Expr>>,
}

/// The head of a `for` loop, in its three forms.
#[derive(Debug)]
pub enum ForLoop {
    CLike(Node<Statement>, Option<Node<Expr>>, Vec<Node<Expr>>),
    In(Symbol, Node<Expr>),
    InVar(VarType, Node<VarDef>, Node<Expr>),
}

/// One case of a `switch`: a `default` case has no value.
#[derive(Debug)]
pub struct SwitchCase {
    pub labels: Vec<Symbol>,
    pub value: Option<Node<Expr>>,
    pub statements: Vec<Node<Statement>>,
}

/// What a `catch` binds: the exception, and the stack trace if it is asked
/// for. Each is a variable of its own, without a value to start with.
#[derive(Debug)]
pub struct CatchPart {
    pub exception: Node<VarDef>,
    pub trace: Option<Node<VarDef>>,
}

/// One `on` or `catch` clause of a `try`.
#[derive(Debug)]
pub struct TryPart {
    pub on: Option<Node<Type>>,
    pub catch: Option<CatchPart>,
    pub block: Node<Statement>,
}

/// A statement.
#[derive(Debug)]
pub enum Statement {
    Block(Vec<Node<Statement>>),
    Vars(VarType, Vec<Node<VarDef>>),
    Function(Node<Function>),
    For(bool, ForLoop, Node<Statement>),
    While(Node<Expr>, Node<Statement>),
    DoWhile(Node<Statement>, Node<Expr>),
    Switch(Node<Expr>, Vec<SwitchCase>),
    If(Node<Expr>, Node<Statement>, Option<Node<Statement>>),
    Rethrow,
    Try(Node<Statement>, Vec<TryPart>),
    Break(Option<Symbol>),
    Continue(Option<Symbol>),
    Return(Option<Node<Expr>>),
    Yield(Node<Expr>),
    YieldEach(Node<Expr>),
    Expression(Option<Node<Expr>>),
    Assert(Args),
    Labelled(Symbol, Node<Statement>),
}

impl Qualified {
    /// The unqualified name `name` with the type arguments `params`.
    pub fn one(name: &str, params: Vec<Node<Type>>) -> (qualified: Node<Qualified>)
        ensures
            qualified@.prefix is None,
            qualified@.name@ == name@,
            qualified@.params == params,
    {
        Node::new(Qualified { prefix: None, name: Symbol::intern(name), params })
    }
}

impl Type {
    /// The type that is just the name `name`.
    pub fn simple_path(name: &str) -> (ty: Node<Type>)
        ensures
            ty@ is Path,
            ty@->Path_0@.prefix is None,
            ty@->Path_0@.name@ == name@,
            ty@->Path_0@.params@ == Seq::<Node<Type>>::empty(),
    {
        Node::new(Type::Path(Qualified::one(name, Vec::new())))
    }
}

impl StringLiteral {
    /// The text of a literal that has no interpolations, taken from the file
    /// that the literal was read from.
    pub fn get_simple_string(&self, file: &SourceFile) -> (text: String)
        requires
            self.interpolated@.len() == 0,
            file.covers(self.prefix),
        ensures
            encode_utf8(text@) == file.snippet(self.prefix),
    {
        file.span_to_snippet(self.prefix).unwrap()
    }
}

impl MetadataItem {
    /// The annotation `@name`, without arguments.
    pub fn simple(name: &str) -> (item: MetadataItem)
        ensures
            item.arguments is None,
            item.qualified@.prefix is None,
            item.qualified@.name@ == name@,
            item.qualified@.params@ == Seq::<Node<Type>>::empty(),
    {
        MetadataItem { qualified: Qualified::one(name, Vec::new()), arguments: None }
    }
}

impl Default for OptionalArgKind {
    fn default() -> (kind: Self)
        ensures
            kind == OptionalArgKind::Positional,
    {
        OptionalArgKind::Positional
    }
}

impl Default for FnSig {
    /// The signature of a function that takes nothing and declares nothing.
    fn default() -> (sig: Self)
        ensures
            sig.return_type@ is Infer,
            sig.required@ == Seq::<ArgDef>::empty(),
            sig.optional@ == Seq::<ArgDef>::empty(),
            sig.optional_kind == OptionalArgKind::Positional,
            !sig.async_,
            !sig.generator,
    {
        FnSig {
            return_type: Node::new(Type::Infer),
            required: Vec::new(),
            optional: Vec::new(),
            optional_kind: OptionalArgKind::Positional,
            async_: false,
            generator: false,
        }
    }
}

impl ArgDef {
    /// The plain parameter `ty name`.
    pub fn simple(ty: Node<Type>, name: &str) -> (arg: ArgDef)
        ensures
            arg.metadata@ == Seq::<MetadataItem>::empty(),
            !arg.covariant,
            arg.ty.fcv == FinalConstVar::Var,
            arg.ty.ty == ty,
            !arg.field,
            arg.var@.name@ == name@,
            arg.var@.init is None,
    {
        ArgDef {
            metadata: Vec::new(),
            covariant: false,
            ty: VarType { fcv: FinalConstVar::Var, ty },
            field: false,
            var: Node::new(VarDef { name: Symbol::intern(name), init: None }),
        }
    }
}

} // verus!
