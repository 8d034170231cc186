//! What the walk keeps: bracket frames and their registers.

use vstd::prelude::*;

verus! {

/// What the token at a site leaves behind, for the `/` right after it.
#[derive(Clone, Copy, PartialEq, Eq, Structural, Debug)]
pub enum After {
    /// The token ends a value: `/` is division.
    Value,
    /// An operand may start: `/` is a regex.
    Operand,
    /// The token ends a declaration nothing can continue (an annotation, a declarator without
    /// initializer, a bodiless signature, `break label`, a module specifier): `/` is a regex.
    EndsDecl,
}

/// Context at the (not yet processed) token starting at a position.
#[derive(Clone, Copy, PartialEq, Eq, Structural, Debug)]
pub struct Site {
    /// Inside a type: annotation, alias, type argument list, type literal.
    pub in_type: bool,
    /// An operand may start here, in expression context.
    pub operand: bool,
    /// A `<` here opens the type-parameter list of a declaration or member.
    pub type_params: bool,
    /// Open `<` lists a `>` run here would close.
    pub angles: usize,
}

/// What a frame was opened by.
#[derive(Clone, Copy, PartialEq, Eq, Structural, Debug)]
pub enum Fk {
    Root,
    // Braces.
    Block,
    FnBody,
    ArrowBody,
    ClassBody,
    StaticBlock,
    Object,
    Pattern,
    TypeLit,
    EnumBody,
    ModuleSpec,
    Container,
    // A template substitution (`${` .. `}`), opened by a TemplateHead or TemplateMiddle and closed
    // by the next Middle/Tail.
    Sub,
    // Parens.
    Head,
    Params,
    Call,
    Group,
    TypeParen,
    // Brackets.
    Index,
    Array,
    ComputedKey,
    TypeBracket,
    ArrayPattern,
    // JSX.
    JsxTag,
    JsxElem,
    // Virtual frames (no bracket of their own).
    Concise,
    TypeRegion,
    Angle,
    FnHead,
    ClassHead,
}

// Head kinds.
pub const H_IF: u8 = 1;

pub const H_WHILE: u8 = 2;

pub const H_FOR: u8 = 3;

pub const H_WITH: u8 = 4;

pub const H_SWITCH: u8 = 5;

pub const H_CATCH: u8 = 6;

// Declarator state on statement frames (`s`).
pub const D_NONE: u8 = 0;

pub const D_BINDING: u8 = 1;

pub const D_BOUND: u8 = 2;

pub const D_INIT: u8 = 3;

// Statement register on statement frames (`m`).
pub const S_NONE: u8 = 0;

pub const S_CASE: u8 = 1;

pub const S_LABEL: u8 = 2;

pub const S_IMPORT: u8 = 3;

pub const S_EXPORT: u8 = 4;

pub const S_TYPE: u8 = 5;

pub const S_TYPE_NAME: u8 = 6;

pub const S_BREAK: u8 = 7;

pub const S_NAMESPACE: u8 = 8;

pub const S_ENUM: u8 = 9;

pub const S_EXPORT_AS: u8 = 11;

pub const S_EXPORT_AS_NS: u8 = 12;

pub const S_IMPORT_NAME: u8 = 13;

pub const S_DECLARE_MODULE: u8 = 14;

// For-head state (`s`).
pub const F_START: u8 = 0;

pub const F_BOUND: u8 = 1;

pub const F_EXPR: u8 = 2;

pub const F_ITER: u8 = 3;

// Member state on Object / ClassBody / TypeLit (`s`).
pub const M_KEY_POS: u8 = 0;

pub const M_KEY_SEEN: u8 = 1;

pub const M_VALUE: u8 = 2;

// Member modifier bits (`mods`) on Object / ClassBody.
pub const MOD_ASYNC: u8 = 1;

pub const MOD_GEN: u8 = 2;

pub const MOD_STATIC: u8 = 4;

// TypeRegion end rule (`s`).
/// `<T>x`: ends at its closing `>`.
pub const R_ASSERT: u8 = 1;

/// `(a): T =>`: ends at `=>`.
pub const R_ARROW_RET: u8 = 2;

/// Declarator / parameter / member annotation: ends at `=`, `,`, a closer or `{`.
pub const R_INLINE: u8 = 3;

/// Alias, import-equals, bodiless module: ends at `;` or a line break.
pub const R_STMT: u8 = 4;

/// `as T` / `satisfies T`: ends at any expression token.
pub const R_EXPR: u8 = 5;

/// `interface X ... { }`: ends after its body.
pub const R_INTERFACE: u8 = 6;

/// The flags that a frame passes on to the frames inside it.
#[derive(Clone, Copy)]
pub struct Scope {
    /// In a generator.
    pub is_gen: bool,
    /// In an async function, or at the top of a module.
    pub asyn: bool,
    /// In strict code.
    pub strict: bool,
    /// In a static block, where `yield` and `await` are reserved.
    pub reserved: bool,
}

/// What may start at the next token.
#[derive(Clone, Copy)]
pub struct Next {
    /// An operand.
    pub expr_allowed: bool,
    /// A statement.
    pub stmt_start: bool,
}

/// What the previous significant token was.
#[derive(Clone, Copy)]
pub struct Prev {
    /// Its keyword code, 0 if it was none.
    pub kw: u8,
    /// A numeric literal (so a `.` right behind it continues the number).
    pub num: bool,
    /// `.` or `?.`: the next word is a property name.
    pub dot: bool,
    /// The modifier `async` (on the same line as the next token).
    pub asyn: bool,
    /// The end of an `as` type or of a type-argument list; TypeScript never tries type arguments
    /// after those, so a `<` compares.
    pub no_type_args: bool,
}

/// What the previous significant token ended.
#[derive(Clone, Copy)]
pub struct Ended {
    /// The token was `=>`, with the async-ness of the arrow.
    pub arrow: bool,
    pub arrow_async: bool,
    /// The token closed a Group (`)`), and whether `async` preceded it.
    pub group: bool,
    pub group_async: bool,
    /// The token closed a Params frame.
    pub params: bool,
}

/// Where the current statement stands.
#[derive(Clone, Copy)]
pub struct Stmt {
    /// `export default` was just seen.
    pub export_default: bool,
    /// Decorator at statement level / operand level (0 none).
    pub deco: u8,
    /// `await` immediately after `for`.
    pub for_await: bool,
    /// The last token completed a statement that cannot be continued by anything (`break label`,
    /// module specifier).
    pub done: bool,
}

/// A frame: what opened it, the scope flags it passes on, and its registers.
#[derive(Clone, Copy)]
pub struct Frame {
    pub kind: Fk,
    pub scope: Scope,
    /// Braces: closing this frame ends a value.
    pub value: bool,
    /// Type frames: part of a declaration type (vs embedded in an expression).
    pub decl: bool,
    /// TypeRegion: the last token completed a type.
    pub atom: bool,
    /// TypeRegion: the last token closed a `(` opened inside the region.
    pub inner: bool,
    pub s: u8,
    pub m: u8,
    /// Member modifier bits (Object / ClassBody).
    pub mods: u8,
    /// For-head: the binding came from a declaration (`for (let x of`).
    pub fdecl: bool,
    pub head: u8,
    pub qdebt: u16,
    pub prologue: u8,
}

/// Frames without a bracket of their own.
pub open spec fn virtual_kind(k: Fk) -> bool {
    matches!(k, Fk::Concise | Fk::TypeRegion | Fk::Angle | Fk::FnHead | Fk::ClassHead)
}

/// Frames that hold statements, and so declarator state and statement registers.
pub open spec fn stmt_holder(k: Fk) -> bool {
    matches!(k, Fk::Root | Fk::Block | Fk::FnBody | Fk::ArrowBody | Fk::StaticBlock)
}

/// Function-like scopes, where `yield` and `await` look up what they are.
pub open spec fn scope_kind(k: Fk) -> bool {
    matches!(
        k,
        Fk::Root | Fk::FnBody | Fk::ArrowBody | Fk::Concise | Fk::ClassBody | Fk::StaticBlock
            | Fk::Params
    )
}

/// Frames whose inside is a type.
pub open spec fn type_frame(k: Fk) -> bool {
    matches!(k, Fk::TypeRegion | Fk::Angle | Fk::TypeParen | Fk::TypeBracket | Fk::TypeLit)
}

impl Frame {
    /// A frame with empty registers that takes over the scope flags of this one.
    pub open spec fn nested(self, kind: Fk) -> Frame {
        Frame {
            kind,
            scope: self.scope,
            value: false,
            decl: false,
            atom: false,
            inner: false,
            s: 0,
            m: 0,
            mods: 0,
            fdecl: false,
            head: 0,
            qdebt: 0,
            prologue: 0,
        }
    }

    /// A fresh frame of `kind` inside this one.
    pub fn child(&self, kind: Fk) -> (r: Frame)
        ensures
            r == self.nested(kind),
    {
        Frame {
            kind,
            scope: self.scope,
            value: false,
            decl: false,
            atom: false,
            inner: false,
            s: 0,
            m: 0,
            mods: 0,
            fdecl: false,
            head: 0,
            qdebt: 0,
            prologue: 0,
        }
    }

    /// The frame around a whole source.
    pub open spec fn root_of(module: bool) -> Frame {
        Frame {
            kind: Fk::Root,
            scope: Scope { is_gen: false, asyn: module, strict: module, reserved: false },
            value: false,
            decl: false,
            atom: false,
            inner: false,
            s: 0,
            m: 0,
            mods: 0,
            fdecl: false,
            head: 0,
            qdebt: 0,
            prologue: 1,
        }
    }

    /// The frame around a whole source.
    pub fn root(module: bool) -> (r: Frame)
        ensures
            r == Frame::root_of(module),
    {
        Frame {
            kind: Fk::Root,
            scope: Scope { is_gen: false, asyn: module, strict: module, reserved: false },
            value: false,
            decl: false,
            atom: false,
            inner: false,
            s: 0,
            m: 0,
            mods: 0,
            fdecl: false,
            head: 0,
            qdebt: 0,
            prologue: 1,
        }
    }
}

/// Frames that hold statements (and so declarator state and statement registers).
pub fn is_stmt_holder(k: Fk) -> (r: bool)
    ensures
        r == stmt_holder(k),
{
    matches!(k, Fk::Root | Fk::Block | Fk::FnBody | Fk::ArrowBody | Fk::StaticBlock)
}

/// Does the frame have no bracket of its own?
pub fn is_virtual(k: Fk) -> (r: bool)
    ensures
        r == virtual_kind(k),
{
    matches!(k, Fk::Concise | Fk::TypeRegion | Fk::Angle | Fk::FnHead | Fk::ClassHead)
}

/// A run of frames on top of the stack that ends together.
#[derive(Clone, Copy, PartialEq, Eq, Structural, Debug)]
pub enum Run {
    /// Concise arrow bodies.
    Concise,
    /// Concise arrow bodies without a pending `?`.
    IdleConcise,
    /// Every virtual frame.
    Virtual,
    /// Type regions.
    Region,
    /// Type regions embedded in an expression.
    ExprRegion,
}

impl Run {
    /// Is `f` part of the run?
    pub open spec fn has(self, f: Frame) -> bool {
        match self {
            Run::Concise => f.kind == Fk::Concise,
            Run::IdleConcise => f.kind == Fk::Concise && f.qdebt == 0,
            Run::Virtual => virtual_kind(f.kind),
            Run::Region => f.kind == Fk::TypeRegion,
            Run::ExprRegion => f.kind == Fk::TypeRegion && f.s == R_EXPR,
        }
    }

    /// Is `f` part of the run?
    pub fn covers(self, f: &Frame) -> (r: bool)
        ensures
            r == self.has(*f),
    {
        match self {
            Run::Concise => f.kind == Fk::Concise,
            Run::IdleConcise => f.kind == Fk::Concise && f.qdebt == 0,
            Run::Virtual => is_virtual(f.kind),
            Run::Region => f.kind == Fk::TypeRegion,
            Run::ExprRegion => f.kind == Fk::TypeRegion && f.s == R_EXPR,
        }
    }
}

/// A closer, by the frames it can close.
#[derive(Clone, Copy, PartialEq, Eq, Structural, Debug)]
pub enum Closer {
    Brace,
    Paren,
    Bracket,
    /// The `}` of a template substitution.
    Sub,
    /// A closing JSX tag.
    Tag,
    /// The end of a JSX element.
    Element,
}

impl Closer {
    /// Can this closer end a frame of kind `k`?
    pub open spec fn ends(self, k: Fk) -> bool {
        match self {
            Closer::Brace => matches!(
                k,
                Fk::Block | Fk::FnBody | Fk::ArrowBody | Fk::ClassBody | Fk::StaticBlock
                    | Fk::Object | Fk::Pattern | Fk::TypeLit | Fk::EnumBody | Fk::ModuleSpec
                    | Fk::Container
            ),
            Closer::Paren => matches!(
                k,
                Fk::Head | Fk::Params | Fk::Call | Fk::Group | Fk::TypeParen
            ),
            Closer::Bracket => matches!(
                k,
                Fk::Index | Fk::Array | Fk::ComputedKey | Fk::TypeBracket | Fk::ArrayPattern
            ),
            Closer::Sub => k == Fk::Sub,
            Closer::Tag => k == Fk::JsxElem,
            Closer::Element => matches!(k, Fk::JsxTag | Fk::JsxElem),
        }
    }

    /// Can this closer end a frame of kind `k`?
    pub fn closes(self, k: Fk) -> (r: bool)
        ensures
            r == self.ends(k),
    {
        match self {
            Closer::Brace => matches!(
                k,
                Fk::Block | Fk::FnBody | Fk::ArrowBody | Fk::ClassBody | Fk::StaticBlock
                    | Fk::Object | Fk::Pattern | Fk::TypeLit | Fk::EnumBody | Fk::ModuleSpec
                    | Fk::Container
            ),
            Closer::Paren => matches!(
                k,
                Fk::Head | Fk::Params | Fk::Call | Fk::Group | Fk::TypeParen
            ),
            Closer::Bracket => matches!(
                k,
                Fk::Index | Fk::Array | Fk::ComputedKey | Fk::TypeBracket | Fk::ArrayPattern
            ),
            Closer::Sub => k == Fk::Sub,
            Closer::Tag => k == Fk::JsxElem,
            Closer::Element => matches!(k, Fk::JsxTag | Fk::JsxElem),
        }
    }
}

} // verus!
