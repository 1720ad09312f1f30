//! The kinds of the things libclang reports, each with the value libclang uses for it.

use vstd::prelude::*;

verus! {

/// Indicates the accessibility of a declaration or base class specifier.
#[derive(Copy, Clone, Debug, PartialEq, Eq, Hash, Structural)]
pub enum Accessibility {
    /// The declaration or base class specifier is private.
    Private,
    /// The declaration or base class specifier is protected.
    Protected,
    /// The declaration or base class specifier is public.
    Public,
}

impl Accessibility {
    /// The value libclang uses for this accessibility.
    pub open spec fn code(self) -> int {
        match self {
            Accessibility::Private => 3,
            Accessibility::Protected => 2,
            Accessibility::Public => 1,
        }
    }

    /// Returns the value libclang uses for this accessibility.
    pub fn to_raw(self) -> (raw: i32)
        ensures
            raw == self.code(),
    {
        match self {
            Accessibility::Private => 3,
            Accessibility::Protected => 2,
            Accessibility::Public => 1,
        }
    }

    /// Whether `raw` is one of the values that `from_raw` recognises.
    pub open spec fn is_code(raw: int) -> bool {
        1 <= raw <= 3
    }

    /// Returns the accessibility that libclang denotes by `raw`, if `raw` is a recognised value.
    pub fn from_raw(raw: i32) -> (result: Option<Self>)
        ensures
            result is Some <==> Self::is_code(raw as int),
            result matches Some(k) ==> k.code() == raw,
    {
        match raw {
            1 => Some(Accessibility::Public),
            2 => Some(Accessibility::Protected),
            3 => Some(Accessibility::Private),
            _ => None,
        }
    }

    spec fn decode(raw: int) -> Option<Self> {
        if raw == 3 {
            Some(Accessibility::Private)
        } else if raw == 2 {
            Some(Accessibility::Protected)
        } else if raw == 1 {
            Some(Accessibility::Public)
        } else {
            None
        }
    }

    proof fn lemma_decode(self)
        ensures
            Self::decode(self.code()) == Some(self),
    {
        match self {
            Accessibility::Private => {},
            Accessibility::Protected => {},
            Accessibility::Public => {},
        }
    }

    /// No two variants share a value; every variant's value is recognised by `from_raw`.
    pub proof fn lemma_code(self, other: Self)
        ensures
            self.code() == other.code() ==> self == other,
            Self::is_code(self.code()),
    {
        self.lemma_decode();
        other.lemma_decode();
    }
}

/// Indicates the availability of an AST entity.
#[derive(Copy, Clone, Debug, PartialEq, Eq, Hash, Structural)]
pub enum Availability {
    /// The entity is available.
    Available,
    /// The entity is available but has been deprecated and any usage of it will be a warning.
    Deprecated,
    /// The entity is available but is not accessible and any usage of it will be an error.
    Inaccessible,
    /// The entity is not available and any usage of it will be an error.
    Unavailable,
}

impl Availability {
    /// The value libclang uses for this availability.
    pub open spec fn code(self) -> int {
        match self {
            Availability::Available => 0,
            Availability::Deprecated => 1,
            Availability::Inaccessible => 3,
            Availability::Unavailable => 2,
        }
    }

    /// Returns the value libclang uses for this availability.
    pub fn to_raw(self) -> (raw: i32)
        ensures
            raw == self.code(),
    {
        match self {
            Availability::Available => 0,
            Availability::Deprecated => 1,
            Availability::Inaccessible => 3,
            Availability::Unavailable => 2,
        }
    }

    /// Whether `raw` is one of the values that `from_raw` recognises.
    pub open spec fn is_code(raw: int) -> bool {
        0 <= raw <= 3
    }

    /// Returns the availability that libclang denotes by `raw`, if `raw` is a recognised value.
    pub fn from_raw(raw: i32) -> (result: Option<Self>)
        ensures
            result is Some <==> Self::is_code(raw as int),
            result matches Some(k) ==> k.code() == raw,
    {
        match raw {
            0 => Some(Availability::Available),
            1 => Some(Availability::Deprecated),
            2 => Some(Availability::Unavailable),
            3 => Some(Availability::Inaccessible),
            _ => None,
        }
    }

    spec fn decode(raw: int) -> Option<Self> {
        if raw == 0 {
            Some(Availability::Available)
        } else if raw == 1 {
            Some(Availability::Deprecated)
        } else if raw == 3 {
            Some(Availability::Inaccessible)
        } else if raw == 2 {
            Some(Availability::Unavailable)
        } else {
            None
        }
    }

    proof fn lemma_decode(self)
        ensures
            Self::decode(self.code()) == Some(self),
    {
        match self {
            Availability::Available => {},
            Availability::Deprecated => {},
            Availability::Inaccessible => {},
            Availability::Unavailable => {},
        }
    }

    /// No two variants share a value; every variant's value is recognised by `from_raw`.
    pub proof fn lemma_code(self, other: Self)
        ensures
            self.code() == other.code() ==> self == other,
            Self::is_code(self.code()),
    {
        self.lemma_decode();
        other.lemma_decode();
    }
}

/// Indicates the calling convention specified for a function type.
#[derive(Copy, Clone, Debug, PartialEq, Eq, Hash, Structural)]
pub enum CallingConvention {
    /// The function type uses a calling convention that is not exposed via this interface.
    Unexposed,
    /// The function type uses the x86 `cdecl` calling convention.
    Cdecl,
    /// The function type uses the x86 `fastcall` calling convention.
    Fastcall,
    /// The function type uses the x86 `pascal` calling convention.
    Pascal,
    /// The function type uses the x86 `stdcall` calling convention.
    Stdcall,
    /// The function type uses the x86 `thiscall` calling convention.
    Thiscall,
    /// The function type uses the x86 `vectorcall` calling convention.
    ///
    /// Only produced by `libclang` 3.6 and later.
    Vectorcall,
    /// The function type uses the calling convention for the Swift programming language.
    ///
    /// Only produced by `libclang` 3.9 and later.
    Swift,
    /// The function type uses a calling convention that perserves most registers.
    ///
    /// Only produced by `libclang` 3.9 and later.
    PreserveMost,
    /// The function type uses a calling convention that preverses nearly all registers.
    ///
    /// Only produced by `libclang` 3.9 and later.
    PreserveAll,
    /// The function type uses the ARM AACPS calling convention.
    Aapcs,
    /// The function type uses the ARM AACPS-VFP calling convention.
    AapcsVfp,
    /// The function type uses the calling convention for Intel OpenCL built-ins.
    IntelOcl,
    /// The function type uses a calling convention that passes as many values in registers as
    /// possible.
    ///
    /// Only produced by `libclang` 4.0 and later.
    RegCall,
    /// The function type uses the x64 C calling convention as specified in the System V ABI.
    SysV64,
    /// The function type uses the x64 C calling convention as implemented on Windows.
    Win64,
}

impl CallingConvention {
    /// The value libclang uses for this calling convention.
    pub open spec fn code(self) -> int {
        match self {
            CallingConvention::Unexposed => 200,
            CallingConvention::Cdecl => 1,
            CallingConvention::Fastcall => 3,
            CallingConvention::Pascal => 5,
            CallingConvention::Stdcall => 2,
            CallingConvention::Thiscall => 4,
            CallingConvention::Vectorcall => 12,
            CallingConvention::Swift => 13,
            CallingConvention::PreserveMost => 14,
            CallingConvention::PreserveAll => 15,
            CallingConvention::Aapcs => 6,
            CallingConvention::AapcsVfp => 7,
            CallingConvention::IntelOcl => 9,
            CallingConvention::RegCall => 8,
            CallingConvention::SysV64 => 11,
            CallingConvention::Win64 => 10,
        }
    }

    /// Returns the value libclang uses for this calling convention.
    pub fn to_raw(self) -> (raw: i32)
        ensures
            raw == self.code(),
    {
        match self {
            CallingConvention::Unexposed => 200,
            CallingConvention::Cdecl => 1,
            CallingConvention::Fastcall => 3,
            CallingConvention::Pascal => 5,
            CallingConvention::Stdcall => 2,
            CallingConvention::Thiscall => 4,
            CallingConvention::Vectorcall => 12,
            CallingConvention::Swift => 13,
            CallingConvention::PreserveMost => 14,
            CallingConvention::PreserveAll => 15,
            CallingConvention::Aapcs => 6,
            CallingConvention::AapcsVfp => 7,
            CallingConvention::IntelOcl => 9,
            CallingConvention::RegCall => 8,
            CallingConvention::SysV64 => 11,
            CallingConvention::Win64 => 10,
        }
    }

    /// Whether `raw` is one of the values that `from_raw` recognises.
    pub open spec fn is_code(raw: int) -> bool {
        ||| 1 <= raw <= 15
        ||| raw == 200
    }

    /// Returns the calling convention that libclang denotes by `raw`, if `raw` is a recognised value.
    pub fn from_raw(raw: i32) -> (result: Option<Self>)
        ensures
            result is Some <==> Self::is_code(raw as int),
            result matches Some(k) ==> k.code() == raw,
    {
        match raw {
            1 => Some(CallingConvention::Cdecl),
            2 => Some(CallingConvention::Stdcall),
            3 => Some(CallingConvention::Fastcall),
            4 => Some(CallingConvention::Thiscall),
            5 => Some(CallingConvention::Pascal),
            6 => Some(CallingConvention::Aapcs),
            7 => Some(CallingConvention::AapcsVfp),
            8 => Some(CallingConvention::RegCall),
            9 => Some(CallingConvention::IntelOcl),
            10 => Some(CallingConvention::Win64),
            11 => Some(CallingConvention::SysV64),
            12 => Some(CallingConvention::Vectorcall),
            13 => Some(CallingConvention::Swift),
            14 => Some(CallingConvention::PreserveMost),
            15 => Some(CallingConvention::PreserveAll),
            200 => Some(CallingConvention::Unexposed),
            _ => None,
        }
    }

    spec fn decode(raw: int) -> Option<Self> {
        if raw == 200 {
            Some(CallingConvention::Unexposed)
        } else if raw == 1 {
            Some(CallingConvention::Cdecl)
        } else if raw == 3 {
            Some(CallingConvention::Fastcall)
        } else if raw == 5 {
            Some(CallingConvention::Pascal)
        } else if raw == 2 {
            Some(CallingConvention::Stdcall)
        } else if raw == 4 {
            Some(CallingConvention::Thiscall)
        } else if raw == 12 {
            Some(CallingConvention::Vectorcall)
        } else if raw == 13 {
            Some(CallingConvention::Swift)
        } else if raw == 14 {
            Some(CallingConvention::PreserveMost)
        } else if raw == 15 {
            Some(CallingConvention::PreserveAll)
        } else if raw == 6 {
            Some(CallingConvention::Aapcs)
        } else if raw == 7 {
            Some(CallingConvention::AapcsVfp)
        } else if raw == 9 {
            Some(CallingConvention::IntelOcl)
        } else if raw == 8 {
            Some(CallingConvention::RegCall)
        } else if raw == 11 {
            Some(CallingConvention::SysV64)
        } else if raw == 10 {
            Some(CallingConvention::Win64)
        } else {
            None
        }
    }

    proof fn lemma_decode(self)
        ensures
            Self::decode(self.code()) == Some(self),
    {
        match self {
            CallingConvention::Unexposed => {},
            CallingConvention::Cdecl => {},
            CallingConvention::Fastcall => {},
            CallingConvention::Pascal => {},
            CallingConvention::Stdcall => {},
            CallingConvention::Thiscall => {},
            CallingConvention::Vectorcall => {},
            CallingConvention::Swift => {},
            CallingConvention::PreserveMost => {},
            CallingConvention::PreserveAll => {},
            CallingConvention::Aapcs => {},
            CallingConvention::AapcsVfp => {},
            CallingConvention::IntelOcl => {},
            CallingConvention::RegCall => {},
            CallingConvention::SysV64 => {},
            CallingConvention::Win64 => {},
        }
    }

    /// No two variants share a value; every variant's value is recognised by `from_raw`.
    pub proof fn lemma_code(self, other: Self)
        ensures
            self.code() == other.code() ==> self == other,
            Self::is_code(self.code()),
    {
        self.lemma_decode();
        other.lemma_decode();
    }
}

/// Indicates the categorization of an AST entity.
#[derive(Copy, Clone, Debug, PartialEq, Eq, Hash, Structural)]
pub enum EntityKind {
    /// A declaration whose specific type is not exposed via this interface.
    UnexposedDecl,
    /// A C or C++ struct.
    StructDecl,
    /// A C or C++ union.
    UnionDecl,
    /// A C++ class.
    ClassDecl,
    /// An enum.
    EnumDecl,
    /// A C field or C++ non-static data member in a struct, union, or class.
    FieldDecl,
    /// An enum constant.
    EnumConstantDecl,
    /// A function.
    FunctionDecl,
    /// A variable.
    VarDecl,
    /// A parameter.
    ParmDecl,
    /// An Objective-C `@interface`.
    ObjCInterfaceDecl,
    /// An Objective-C `@interface` for a category.
    ObjCCategoryDecl,
    /// An Objective-C `@protocol` declaration.
    ObjCProtocolDecl,
    /// An Objective-C `@property` declaration.
    ObjCPropertyDecl,
    /// An Objective-C instance variable.
    ObjCIvarDecl,
    /// An Objective-C instance method.
    ObjCInstanceMethodDecl,
    /// An Objective-C class method.
    ObjCClassMethodDecl,
    /// An Objective-C `@implementation`.
    ObjCImplementationDecl,
    /// An Objective-C `@implementation` for a category.
    ObjCCategoryImplDecl,
    /// A typedef.
    TypedefDecl,
    /// A C++ method.
    Method,
    /// A C++ namespace.
    Namespace,
    /// A linkage specification (e.g., `extern "C"`).
    LinkageSpec,
    /// A C++ constructor.
    Constructor,
    /// A C++ destructor.
    Destructor,
    /// A C++ conversion function.
    ConversionFunction,
    /// A C++ template type parameter.
    TemplateTypeParameter,
    /// A C++ template non-type parameter.
    NonTypeTemplateParameter,
    /// A C++ template template parameter.
    TemplateTemplateParameter,
    /// A C++ function template.
    FunctionTemplate,
    /// A C++ class template.
    ClassTemplate,
    /// A C++ class template partial specialization.
    ClassTemplatePartialSpecialization,
    /// A C++ namespace alias declaration.
    NamespaceAlias,
    /// A C++ using directive.
    UsingDirective,
    /// A C++ using declaration.
    UsingDeclaration,
    /// A C++ type alias declaration.
    TypeAliasDecl,
    /// An Objective-C `@synthesize` definition.
    ObjCSynthesizeDecl,
    /// An Objective-C `@dynamic` definition.
    ObjCDynamicDecl,
    /// An access specifier.
    AccessSpecifier,
    /// A reference to a super class in Objective-C.
    ObjCSuperClassRef,
    /// A reference to a protocol in Objective-C.
    ObjCProtocolRef,
    /// A reference to a class in Objective-C.
    ObjCClassRef,
    /// A reference to a type declaration.
    TypeRef,
    /// A base class specifier.
    BaseSpecifier,
    /// A reference to a class template, function template, template template parameter, or class
    /// template partial specialization.
    TemplateRef,
    /// A reference to a namespace or namespace alias.
    NamespaceRef,
    /// A reference to a member of a struct, union, or class that occurs in some non-expression
    /// context.
    MemberRef,
    /// A reference to a labeled statement.
    LabelRef,
    /// A reference to a set of overloaded functions or function templates that has not yet been
    /// resolved to a specific function or function template.
    OverloadedDeclRef,
    /// A reference to a variable that occurs in some non-expression context.
    VariableRef,
    /// Error: An invalid file.
    InvalidFile,
    /// Error: An invalid decl which could not be found.
    InvalidDecl,
    /// Error: An entity which is not yet supported by libclang, or this wrapper.
    NotImplemented,
    /// Error: Invalid code.
    InvalidCode,
    /// An expression whose specific kind is not exposed via this interface.
    UnexposedExpr,
    /// An expression that refers to some value declaration, such as a function or enumerator.
    DeclRefExpr,
    /// An expression that refers to the member of a struct, union, or class.
    MemberRefExpr,
    /// An expression that calls a function.
    CallExpr,
    /// An expression that sends a message to an Objective-C object or class.
    ObjCMessageExpr,
    /// An expression that represents a block literal.
    BlockExpr,
    /// An integer literal.
    IntegerLiteral,
    /// A floating point number literal.
    FloatingLiteral,
    /// An imaginary number literal.
    ImaginaryLiteral,
    /// A string literal.
    StringLiteral,
    /// A character literal.
    CharacterLiteral,
    /// A parenthesized expression.
    ParenExpr,
    /// Any unary expression other than `sizeof` and `alignof`.
    UnaryOperator,
    /// An array subscript expression (`[C99 6.5.2.1]`).
    ArraySubscriptExpr,
    /// A built-in binary expression (e.g., `x + y`).
    BinaryOperator,
    /// A compound assignment expression (e.g., `x += y`).
    CompoundAssignOperator,
    /// A ternary expression.
    ConditionalOperator,
    /// An explicit cast in C or a C-style cast in C++.
    CStyleCastExpr,
    /// A compound literal expression (`[C99 6.5.2.5]`).
    CompoundLiteralExpr,
    /// A C or C++ initializer list.
    InitListExpr,
    /// A GNU address of label expression.
    AddrLabelExpr,
    /// A GNU statement expression.
    StmtExpr,
    /// A C11 generic selection expression.
    GenericSelectionExpr,
    /// A GNU `__null` expression.
    GNUNullExpr,
    /// A C++ `static_cast<>` expression.
    StaticCastExpr,
    /// A C++ `dynamic_cast<>` expression.
    DynamicCastExpr,
    /// A C++ `reinterpret_cast<>` expression.
    ReinterpretCastExpr,
    /// A C++ `const_cast<>` expression.
    ConstCastExpr,
    /// A C++ cast that uses "function" notation (e.g., `int(0.5)`).
    FunctionalCastExpr,
    /// A C++ `typeid` expression.
    TypeidExpr,
    /// A C++ boolean literal.
    BoolLiteralExpr,
    /// A C++ `nullptr` expression.
    NullPtrLiteralExpr,
    /// A C++ `this` expression.
    ThisExpr,
    /// A C++ `throw` expression.
    ThrowExpr,
    /// A C++ `new` expression.
    NewExpr,
    /// A C++ `delete` expression.
    DeleteExpr,
    /// A unary expression.
    UnaryExpr,
    /// An Objective-C string literal.
    ObjCStringLiteral,
    /// An Objective-C `@encode` expression.
    ObjCEncodeExpr,
    /// An Objective-C `@selector` expression.
    ObjCSelectorExpr,
    /// An Objective-C `@protocol` expression.
    ObjCProtocolExpr,
    /// An Objective-C bridged cast expression.
    ObjCBridgedCastExpr,
    /// A C++11 parameter pack expansion expression.
    PackExpansionExpr,
    /// A C++11 `sizeof...` expression.
    SizeOfPackExpr,
    /// A C++11 lambda expression.
    LambdaExpr,
    /// An Objective-C boolean literal.
    ObjCBoolLiteralExpr,
    /// An Objective-C `self` expression.
    ObjCSelfExpr,
    /// An OpenMP array section expression.
    ///
    /// Only produced by `libclang` 3.8 and later.
    OmpArraySectionExpr,
    /// An Objective-C availability check expression (e.g., `@available(macos 10.10, *)`).
    ///
    /// Only produced by `libclang` 3.9 and later.
    ObjCAvailabilityCheckExpr,
    /// A fixed-point literal.
    ///
    /// Only produced by `libclang` 7.0 and later.
    FixedPointLiteral,
    /// A statement whose specific kind is not exposed via this interface.
    UnexposedStmt,
    /// A labelled statement in a function.
    LabelStmt,
    /// A group of statements (e.g., a function body).
    CompoundStmt,
    /// A `case` statement.
    CaseStmt,
    /// A `default` statement.
    DefaultStmt,
    /// An `if` statement.
    IfStmt,
    /// A `switch` statement.
    SwitchStmt,
    /// A `while` statement.
    WhileStmt,
    /// A `do` statement.
    DoStmt,
    /// A `for` statement.
    ForStmt,
    /// A `goto` statement.
    GotoStmt,
    /// An indirect `goto` statement.
    IndirectGotoStmt,
    /// A `continue` statement.
    ContinueStmt,
    /// A `break` statement.
    BreakStmt,
    /// A `return` statement.
    ReturnStmt,
    /// An inline assembly statement.
    AsmStmt,
    /// An Objective-C `@try`-`@catch`-`@finally` statement.
    ObjCAtTryStmt,
    /// An Objective-C `@catch` statement.
    ObjCAtCatchStmt,
    /// An Objective-C `@finally` statement.
    ObjCAtFinallyStmt,
    /// An Objective-C `@throw` statement.
    ObjCAtThrowStmt,
    /// An Objective-C `@synchronized` statement.
    ObjCAtSynchronizedStmt,
    /// An Objective-C autorelease pool statement.
    ObjCAutoreleasePoolStmt,
    /// An Objective-C collection statement.
    ObjCForCollectionStmt,
    /// A C++ catch statement.
    CatchStmt,
    /// A C++ try statement.
    TryStmt,
    /// A C++11 range-based for statement.
    ForRangeStmt,
    /// A Windows Structured Exception Handling `__try` statement.
    SehTryStmt,
    /// A Windows Structured Exception Handling `__except` statement.
    SehExceptStmt,
    /// A Windows Structured Exception Handling `__finally` statement.
    SehFinallyStmt,
    /// A Windows Structured Exception Handling `__leave` statement.
    SehLeaveStmt,
    /// A Microsoft inline assembly statement.
    MsAsmStmt,
    /// A null statement.
    NullStmt,
    /// An adaptor for mixing declarations with statements and expressions.
    DeclStmt,
    /// An OpenMP parallel directive.
    OmpParallelDirective,
    /// An OpenMP SIMD directive.
    OmpSimdDirective,
    /// An OpenMP for directive.
    OmpForDirective,
    /// An OpenMP sections directive.
    OmpSectionsDirective,
    /// An OpenMP section directive.
    OmpSectionDirective,
    /// An OpenMP single directive.
    OmpSingleDirective,
    /// An OpenMP parallel for directive.
    OmpParallelForDirective,
    /// An OpenMP parallel sections directive.
    OmpParallelSectionsDirective,
    /// An OpenMP task directive.
    OmpTaskDirective,
    /// An OpenMP master directive.
    OmpMasterDirective,
    /// An OpenMP critical directive.
    OmpCriticalDirective,
    /// An OpenMP taskyield directive.
    OmpTaskyieldDirective,
    /// An OpenMP barrier directive.
    OmpBarrierDirective,
    /// An OpenMP taskwait directive.
    OmpTaskwaitDirective,
    /// An OpenMP flush directive.
    OmpFlushDirective,
    /// An OpenMP ordered directive.
    ///
    /// Only produced by `libclang` 3.6 and later.
    OmpOrderedDirective,
    /// An OpenMP atomic directive.
    ///
    /// Only produced by `libclang` 3.6 and later.
    OmpAtomicDirective,
    /// An OpenMP for SIMD directive.
    ///
    /// Only produced by `libclang` 3.6 and later.
    OmpForSimdDirective,
    /// An OpenMP parallel for SIMD directive.
    ///
    /// Only produced by `libclang` 3.6 and later.
    OmpParallelForSimdDirective,
    /// An OpenMP target directive.
    ///
    /// Only produced by `libclang` 3.6 and later.
    OmpTargetDirective,
    /// An OpenMP teams directive.
    ///
    /// Only produced by `libclang` 3.6 and later.
    OmpTeamsDirective,
    /// An OpenMP taskgroup directive.
    ///
    /// Only produced by `libclang` 3.7 and later.
    OmpTaskgroupDirective,
    /// An OpenMP cancellation point directive.
    ///
    /// Only produced by `libclang` 3.7 and later.
    OmpCancellationPointDirective,
    /// An OpenMP cancel directive.
    ///
    /// Only produced by `libclang` 3.7 and later.
    OmpCancelDirective,
    /// An OpenMP target data directive.
    ///
    /// Only produced by `libclang` 3.8 and later.
    OmpTargetDataDirective,
    /// An OpenMP task loop directive.
    ///
    /// Only produced by `libclang` 3.8 and later.
    OmpTaskLoopDirective,
    /// An OpenMP task loop SIMD directive.
    ///
    /// Only produced by `libclang` 3.8 and later.
    OmpTaskLoopSimdDirective,
    /// An OpenMP distribute directive.
    ///
    /// Only produced by `libclang` 3.8 and later.
    OmpDistributeDirective,
    /// An OpenMP target enter data directive.
    ///
    /// Only produced by `libclang` 3.9 and later.
    OmpTargetEnterDataDirective,
    /// An OpenMP target exit data directive.
    ///
    /// Only produced by `libclang` 3.9 and later.
    OmpTargetExitDataDirective,
    /// An OpenMP target parallel directive.
    ///
    /// Only produced by `libclang` 3.9 and later.
    OmpTargetParallelDirective,
    /// An OpenMP target parallel for directive.
    ///
    /// Only produced by `libclang` 3.9 and later.
    OmpTargetParallelForDirective,
    /// An OpenMP target update directive.
    ///
    /// Only produced by `libclang` 3.9 and later.
    OmpTargetUpdateDirective,
    /// An OpenMP distribute parallel for directive.
    ///
    /// Only produced by `libclang` 3.9 and later.
    OmpDistributeParallelForDirective,
    /// An OpenMP distribute parallel for SIMD directive.
    ///
    /// Only produced by `libclang` 3.9 and later.
    OmpDistributeParallelForSimdDirective,
    /// An OpenMP distribute SIMD directive.
    ///
    /// Only produced by `libclang` 3.9 and later.
    OmpDistributeSimdDirective,
    /// An OpenMP target parallel for SIMD directive.
    ///
    /// Only produced by `libclang` 3.9 and later.
    OmpTargetParallelForSimdDirective,
    /// An OpenMP target SIMD directive.
    ///
    /// Only produced by `libclang` 4.0 and later.
    OmpTargetSimdDirective,
    /// An OpenMP teams distribute directive.
    ///
    /// Only produced by `libclang` 4.0 and later.
    OmpTeamsDistributeDirective,
    /// An OpenMP teams distribute SIMD directive.
    ///
    /// Only produced by `libclang` 4.0 and later.
    OmpTeamsDistributeSimdDirective,
    /// An OpenMP teams distribute parallel for SIMD directive.
    ///
    /// Only produced by `libclang` 4.0 and later.
    OmpTeamsDistributeParallelForSimdDirective,
    /// An OpenMP teams distribute parallel for directive.
    ///
    /// Only produced by `libclang` 4.0 and later.
    OmpTeamsDistributeParallelForDirective,
    /// An OpenMP target teams directive.
    ///
    /// Only produced by `libclang` 4.0 and later.
    OmpTargetTeamsDirective,
    /// An OpenMP target teams distribute directive.
    ///
    /// Only produced by `libclang` 4.0 and later.
    OmpTargetTeamsDistributeDirective,
    /// An OpenMP target teams distribute parallel for directive.
    ///
    /// Only produced by `libclang` 4.0 and later.
    OmpTargetTeamsDistributeParallelForDirective,
    /// An OpenMP target teams distribute parallel for SIMD directive.
    ///
    /// Only produced by `libclang` 4.0 and later.
    OmpTargetTeamsDistributeParallelForSimdDirective,
    /// An OpenMP target teams distribute SIMD directive.
    ///
    /// Only produced by `libclang` 4.0 and later.
    OmpTargetTeamsDistributeSimdDirective,
    /// C++2a std::bit_cast expression.
    ///
    /// Only produced by 'libclang' 9.0 and later.
    BitCastExpr,
    /// An OpenMP master task loop directive.
    ///
    /// Only produced by `libclang` 10.0 and later.
    OmpMasterTaskLoopDirective,
    /// An OpenMP parallel master task loop directive.
    ///
    /// Only produced by `libclang` 10.0 and later.
    OmpParallelMasterTaskLoopDirective,
    /// An OpenMP master task loop SIMD directive.
    ///
    /// Only produced by `libclang` 10.0 and later.
    OmpMasterTaskLoopSimdDirective,
    /// An OpenMP parallel master task loop SIMD directive.
    ///
    /// Only produced by `libclang` 10.0 and later.
    OmpParallelMasterTaskLoopSimdDirective,
    /// An OpenMP parallel master directive.
    ///
    /// Only produced by `libclang` 10.0 and later.
    OmpParallelMasterDirective,
    /// The top-level AST entity which acts as the root for the other entitys.
    TranslationUnit,
    /// An attribute whose specific kind is not exposed via this interface.
    UnexposedAttr,
    /// An attribute applied to an Objective-C IBAction.
    IbActionAttr,
    /// An attribute applied to an Objective-C IBOutlet.
    IbOutletAttr,
    /// An attribute applied to an Objective-C IBOutletCollection.
    IbOutletCollectionAttr,
    /// The `final` attribute.
    FinalAttr,
    /// The `override` attribute.
    OverrideAttr,
    /// An annotation attribute.
    AnnotateAttr,
    /// An ASM label attribute.
    AsmLabelAttr,
    /// An attribute that requests for packed records (e.g., `__attribute__ ((__packed__))`).
    PackedAttr,
    /// An attribute that asserts a function has no side effects (e.g., `__attribute__((pure))`).
    PureAttr,
    /// The `const` attribute.
    ConstAttr,
    /// An attribute that allows calls to a function to be duplicated by the optimized
    /// (e.g., `__attribute__((noduplicate))`).
    NoDuplicateAttr,
    /// A CUDA constant attribute.
    CudaConstantAttr,
    /// A CUDA device attribute.
    CudaDeviceAttr,
    /// A CUDA global attribute.
    CudaGlobalAttr,
    /// A CUDA host attribute.
    CudaHostAttr,
    /// A CUDA shared attribute.
    ///
    /// Only produced by `libclang` 3.6 and later.
    CudaSharedAttr,
    /// A linker visibility attribute.
    ///
    /// Only produced by `libclang` 3.8 and later.
    VisibilityAttr,
    /// A MSVC DLL export attribute.
    ///
    /// Only produced by `libclang` 3.8 and later.
    DllExport,
    /// A MSVC DLL import attribute.
    ///
    /// Only produced by `libclang` 3.8 and later.
    DllImport,
    /// `__attribute__((ns_returns_retained))`
    ///
    /// Only produced by `libclang` 8.0 and later.
    NSReturnsRetained,
    /// `__attribute__((ns_returns_not_retained))`
    ///
    /// Only produced by `libclang` 8.0 and later.
    NSReturnsNotRetained,
    /// `__attribute__((ns_returns_autoreleased))`
    ///
    /// Only produced by `libclang` 8.0 and later.
    NSReturnsAutoreleased,
    /// `__attribute__((ns_consumes_self))`
    ///
    /// Only produced by `libclang` 8.0 and later.
    NSConsumesSelf,
    /// `__attribute__((ns_consumed))`
    ///
    /// Only produced by `libclang` 8.0 and later.
    NSConsumed,
    /// `__attribute__((objc_exception))`
    ///
    /// Only produced by `libclang` 8.0 and later.
    ObjCException,
    /// `__attribute__((NSObject))`
    ///
    /// Only produced by `libclang` 8.0 and later.
    ObjCNSObject,
    /// `__attribute__((objc_independent_class))`
    ///
    /// Only produced by `libclang` 8.0 and later.
    ObjCIndependentClass,
    /// `__attribute__((objc_precise_lifetime))`
    ///
    /// Only produced by `libclang` 8.0 and later.
    ObjCPreciseLifetime,
    /// `__attribute__((objc_returns_inner_pointer))`
    ///
    /// Only produced by `libclang` 8.0 and later.
    ObjCReturnsInnerPointer,
    /// `__attribute__((objc_requires_super))`
    ///
    /// Only produced by `libclang` 8.0 and later.
    ObjCRequiresSuper,
    /// `__attribute__((objc_root_class))`
    ///
    /// Only produced by `libclang` 8.0 and later.
    ObjCRootClass,
    /// `__attribute__((objc_subclassing_restricted))`
    ///
    /// Only produced by `libclang` 8.0 and later.
    ObjCSubclassingRestricted,
    /// `__attribute__((objc_protocol_requires_explicit_implementation))`
    ///
    /// Only produced by `libclang` 8.0 and later.
    ObjCExplicitProtocolImpl,
    /// `__attribute__((objc_designated_initializer))`
    ///
    /// Only produced by `libclang` 8.0 and later.
    ObjCDesignatedInitializer,
    /// `__attribute__((objc_runtime_visible))`
    ///
    /// Only produced by `libclang` 8.0 and later.
    ObjCRuntimeVisible,
    /// `__attribute__((objc_boxable))`
    ///
    /// Only produced by `libclang` 8.0 and later.
    ObjCBoxable,
    /// `__attribute__((flag_enum))`
    ///
    /// Only produced by `libclang` 8.0 and later.
    FlagEnum,
    /// `__attribute__((clang::convergent))`
    ///
    /// Only produced by `libclang` 9.0 and later.
    ConvergentAttr,
    /// Only produced by `libclang` 9.0 and later.
    WarnUnusedAttr,
    /// `__attribute__((nodiscard))`
    ///
    /// Only produced by `libclang` 9.0 and later.
    WarnUnusedResultAttr,
    /// Only produced by `libclang` 9.0 and later.
    AlignedAttr,
    /// A preprocessing directive.
    PreprocessingDirective,
    /// A macro definition.
    MacroDefinition,
    /// A macro expansion.
    MacroExpansion,
    /// An inclusion directive.
    InclusionDirective,
    /// A module import declaration.
    ModuleImportDecl,
    /// A C++11 alias template declaration (e.g., `template <typename T> using M = std::map<T, T>`).
    ///
    /// Only produced by `libclang` 3.8 and later.
    TypeAliasTemplateDecl,
    /// A `static_assert` node.
    ///
    /// Only produced by `libclang` 3.9 and later.
    StaticAssert,
    /// A friend declaration.
    ///
    /// Only produced by `libclang` 4.0 and later.
    FriendDecl,
    /// A single overload in a set of overloads.
    ///
    /// Only produced by `libclang` 3.7 and later.
    OverloadCandidate,
}

impl EntityKind {
    /// The value libclang uses for this entity kind.
    pub open spec fn code(self) -> int {
        match self {
            EntityKind::UnexposedDecl => 1,
            EntityKind::StructDecl => 2,
            EntityKind::UnionDecl => 3,
            EntityKind::ClassDecl => 4,
            EntityKind::EnumDecl => 5,
            EntityKind::FieldDecl => 6,
            EntityKind::EnumConstantDecl => 7,
            EntityKind::FunctionDecl => 8,
            EntityKind::VarDecl => 9,
            EntityKind::ParmDecl => 10,
            EntityKind::ObjCInterfaceDecl => 11,
            EntityKind::ObjCCategoryDecl => 12,
            EntityKind::ObjCProtocolDecl => 13,
            EntityKind::ObjCPropertyDecl => 14,
            EntityKind::ObjCIvarDecl => 15,
            EntityKind::ObjCInstanceMethodDecl => 16,
            EntityKind::ObjCClassMethodDecl => 17,
            EntityKind::ObjCImplementationDecl => 18,
            EntityKind::ObjCCategoryImplDecl => 19,
            EntityKind::TypedefDecl => 20,
            EntityKind::Method => 21,
            EntityKind::Namespace => 22,
            EntityKind::LinkageSpec => 23,
            EntityKind::Constructor => 24,
            EntityKind::Destructor => 25,
            EntityKind::ConversionFunction => 26,
            EntityKind::TemplateTypeParameter => 27,
            EntityKind::NonTypeTemplateParameter => 28,
            EntityKind::TemplateTemplateParameter => 29,
            EntityKind::FunctionTemplate => 30,
            EntityKind::ClassTemplate => 31,
            EntityKind::ClassTemplatePartialSpecialization => 32,
            EntityKind::NamespaceAlias => 33,
            EntityKind::UsingDirective => 34,
            EntityKind::UsingDeclaration => 35,
            EntityKind::TypeAliasDecl => 36,
            EntityKind::ObjCSynthesizeDecl => 37,
            EntityKind::ObjCDynamicDecl => 38,
            EntityKind::AccessSpecifier => 39,
            EntityKind::ObjCSuperClassRef => 40,
            EntityKind::ObjCProtocolRef => 41,
            EntityKind::ObjCClassRef => 42,
            EntityKind::TypeRef => 43,
            EntityKind::BaseSpecifier => 44,
            EntityKind::TemplateRef => 45,
            EntityKind::NamespaceRef => 46,
            EntityKind::MemberRef => 47,
            EntityKind::LabelRef => 48,
            EntityKind::OverloadedDeclRef => 49,
            EntityKind::VariableRef => 50,
            EntityKind::InvalidFile => 70,
            EntityKind::InvalidDecl => 71,
            EntityKind::NotImplemented => 72,
            EntityKind::InvalidCode => 73,
            EntityKind::UnexposedExpr => 100,
            EntityKind::DeclRefExpr => 101,
            EntityKind::MemberRefExpr => 102,
            EntityKind::CallExpr => 103,
            EntityKind::ObjCMessageExpr => 104,
            EntityKind::BlockExpr => 105,
            EntityKind::IntegerLiteral => 106,
            EntityKind::FloatingLiteral => 107,
            EntityKind::ImaginaryLiteral => 108,
            EntityKind::StringLiteral => 109,
            EntityKind::CharacterLiteral => 110,
            EntityKind::ParenExpr => 111,
            EntityKind::UnaryOperator => 112,
            EntityKind::ArraySubscriptExpr => 113,
            EntityKind::BinaryOperator => 114,
            EntityKind::CompoundAssignOperator => 115,
            EntityKind::ConditionalOperator => 116,
            EntityKind::CStyleCastExpr => 117,
            EntityKind::CompoundLiteralExpr => 118,
            EntityKind::InitListExpr => 119,
            EntityKind::AddrLabelExpr => 120,
            EntityKind::StmtExpr => 121,
            EntityKind::GenericSelectionExpr => 122,
            EntityKind::GNUNullExpr => 123,
            EntityKind::StaticCastExpr => 124,
            EntityKind::DynamicCastExpr => 125,
            EntityKind::ReinterpretCastExpr => 126,
            EntityKind::ConstCastExpr => 127,
            EntityKind::FunctionalCastExpr => 128,
            EntityKind::TypeidExpr => 129,
            EntityKind::BoolLiteralExpr => 130,
            EntityKind::NullPtrLiteralExpr => 131,
            EntityKind::ThisExpr => 132,
            EntityKind::ThrowExpr => 133,
            EntityKind::NewExpr => 134,
            EntityKind::DeleteExpr => 135,
            EntityKind::UnaryExpr => 136,
            EntityKind::ObjCStringLiteral => 137,
            EntityKind::ObjCEncodeExpr => 138,
            EntityKind::ObjCSelectorExpr => 139,
            EntityKind::ObjCProtocolExpr => 140,
            EntityKind::ObjCBridgedCastExpr => 141,
            EntityKind::PackExpansionExpr => 142,
            EntityKind::SizeOfPackExpr => 143,
            EntityKind::LambdaExpr => 144,
            EntityKind::ObjCBoolLiteralExpr => 145,
            EntityKind::ObjCSelfExpr => 146,
            EntityKind::OmpArraySectionExpr => 147,
            EntityKind::ObjCAvailabilityCheckExpr => 148,
            EntityKind::FixedPointLiteral => 149,
            EntityKind::UnexposedStmt => 200,
            EntityKind::LabelStmt => 201,
            EntityKind::CompoundStmt => 202,
            EntityKind::CaseStmt => 203,
            EntityKind::DefaultStmt => 204,
            EntityKind::IfStmt => 205,
            EntityKind::SwitchStmt => 206,
            EntityKind::WhileStmt => 207,
            EntityKind::DoStmt => 208,
            EntityKind::ForStmt => 209,
            EntityKind::GotoStmt => 210,
            EntityKind::IndirectGotoStmt => 211,
            EntityKind::ContinueStmt => 212,
            EntityKind::BreakStmt => 213,
            EntityKind::ReturnStmt => 214,
            EntityKind::AsmStmt => 215,
            EntityKind::ObjCAtTryStmt => 216,
            EntityKind::ObjCAtCatchStmt => 217,
            EntityKind::ObjCAtFinallyStmt => 218,
            EntityKind::ObjCAtThrowStmt => 219,
            EntityKind::ObjCAtSynchronizedStmt => 220,
            EntityKind::ObjCAutoreleasePoolStmt => 221,
            EntityKind::ObjCForCollectionStmt => 222,
            EntityKind::CatchStmt => 223,
            EntityKind::TryStmt => 224,
            EntityKind::ForRangeStmt => 225,
            EntityKind::SehTryStmt => 226,
            EntityKind::SehExceptStmt => 227,
            EntityKind::SehFinallyStmt => 228,
            EntityKind::SehLeaveStmt => 247,
            EntityKind::MsAsmStmt => 229,
            EntityKind::NullStmt => 230,
            EntityKind::DeclStmt => 231,
            EntityKind::OmpParallelDirective => 232,
            EntityKind::OmpSimdDirective => 233,
            EntityKind::OmpForDirective => 234,
            EntityKind::OmpSectionsDirective => 235,
            EntityKind::OmpSectionDirective => 236,
            EntityKind::OmpSingleDirective => 237,
            EntityKind::OmpParallelForDirective => 238,
            EntityKind::OmpParallelSectionsDirective => 239,
            EntityKind::OmpTaskDirective => 240,
            EntityKind::OmpMasterDirective => 241,
            EntityKind::OmpCriticalDirective => 242,
            EntityKind::OmpTaskyieldDirective => 243,
            EntityKind::OmpBarrierDirective => 244,
            EntityKind::OmpTaskwaitDirective => 245,
            EntityKind::OmpFlushDirective => 246,
            EntityKind::OmpOrderedDirective => 248,
            EntityKind::OmpAtomicDirective => 249,
            EntityKind::OmpForSimdDirective => 250,
            EntityKind::OmpParallelForSimdDirective => 251,
            EntityKind::OmpTargetDirective => 252,
            EntityKind::OmpTeamsDirective => 253,
            EntityKind::OmpTaskgroupDirective => 254,
            EntityKind::OmpCancellationPointDirective => 255,
            EntityKind::OmpCancelDirective => 256,
            EntityKind::OmpTargetDataDirective => 257,
            EntityKind::OmpTaskLoopDirective => 258,
            EntityKind::OmpTaskLoopSimdDirective => 259,
            EntityKind::OmpDistributeDirective => 260,
            EntityKind::OmpTargetEnterDataDirective => 261,
            EntityKind::OmpTargetExitDataDirective => 262,
            EntityKind::OmpTargetParallelDirective => 263,
            EntityKind::OmpTargetParallelForDirective => 264,
            EntityKind::OmpTargetUpdateDirective => 265,
            EntityKind::OmpDistributeParallelForDirective => 266,
            EntityKind::OmpDistributeParallelForSimdDirective => 267,
            EntityKind::OmpDistributeSimdDirective => 268,
            EntityKind::OmpTargetParallelForSimdDirective => 269,
            EntityKind::OmpTargetSimdDirective => 270,
            EntityKind::OmpTeamsDistributeDirective => 271,
            EntityKind::OmpTeamsDistributeSimdDirective => 272,
            EntityKind::OmpTeamsDistributeParallelForSimdDirective => 273,
            EntityKind::OmpTeamsDistributeParallelForDirective => 274,
            EntityKind::OmpTargetTeamsDirective => 275,
            EntityKind::OmpTargetTeamsDistributeDirective => 276,
            EntityKind::OmpTargetTeamsDistributeParallelForDirective => 277,
            EntityKind::OmpTargetTeamsDistributeParallelForSimdDirective => 278,
            EntityKind::OmpTargetTeamsDistributeSimdDirective => 279,
            EntityKind::BitCastExpr => 280,
            EntityKind::OmpMasterTaskLoopDirective => 281,
            EntityKind::OmpParallelMasterTaskLoopDirective => 282,
            EntityKind::OmpMasterTaskLoopSimdDirective => 283,
            EntityKind::OmpParallelMasterTaskLoopSimdDirective => 284,
            EntityKind::OmpParallelMasterDirective => 285,
            EntityKind::TranslationUnit => 300,
            EntityKind::UnexposedAttr => 400,
            EntityKind::IbActionAttr => 401,
            EntityKind::IbOutletAttr => 402,
            EntityKind::IbOutletCollectionAttr => 403,
            EntityKind::FinalAttr => 404,
            EntityKind::OverrideAttr => 405,
            EntityKind::AnnotateAttr => 406,
            EntityKind::AsmLabelAttr => 407,
            EntityKind::PackedAttr => 408,
            EntityKind::PureAttr => 409,
            EntityKind::ConstAttr => 410,
            EntityKind::NoDuplicateAttr => 411,
            EntityKind::CudaConstantAttr => 412,
            EntityKind::CudaDeviceAttr => 413,
            EntityKind::CudaGlobalAttr => 414,
            EntityKind::CudaHostAttr => 415,
            EntityKind::CudaSharedAttr => 416,
            EntityKind::VisibilityAttr => 417,
            EntityKind::DllExport => 418,
            EntityKind::DllImport => 419,
            EntityKind::NSReturnsRetained => 420,
            EntityKind::NSReturnsNotRetained => 421,
            EntityKind::NSReturnsAutoreleased => 422,
            EntityKind::NSConsumesSelf => 423,
            EntityKind::NSConsumed => 424,
            EntityKind::ObjCException => 425,
            EntityKind::ObjCNSObject => 426,
            EntityKind::ObjCIndependentClass => 427,
            EntityKind::ObjCPreciseLifetime => 428,
            EntityKind::ObjCReturnsInnerPointer => 429,
            EntityKind::ObjCRequiresSuper => 430,
            EntityKind::ObjCRootClass => 431,
            EntityKind::ObjCSubclassingRestricted => 432,
            EntityKind::ObjCExplicitProtocolImpl => 433,
            EntityKind::ObjCDesignatedInitializer => 434,
            EntityKind::ObjCRuntimeVisible => 435,
            EntityKind::ObjCBoxable => 436,
            EntityKind::FlagEnum => 437,
            EntityKind::ConvergentAttr => 438,
            EntityKind::WarnUnusedAttr => 439,
            EntityKind::WarnUnusedResultAttr => 440,
            EntityKind::AlignedAttr => 441,
            EntityKind::PreprocessingDirective => 500,
            EntityKind::MacroDefinition => 501,
            EntityKind::MacroExpansion => 502,
            EntityKind::InclusionDirective => 503,
            EntityKind::ModuleImportDecl => 600,
            EntityKind::TypeAliasTemplateDecl => 601,
            EntityKind::StaticAssert => 602,
            EntityKind::FriendDecl => 603,
            EntityKind::OverloadCandidate => 700,
        }
    }

    /// Returns the value libclang uses for this entity kind.
    pub fn to_raw(self) -> (raw: i32)
        ensures
            raw == self.code(),
    {
        match self {
            EntityKind::UnexposedDecl => 1,
            EntityKind::StructDecl => 2,
            EntityKind::UnionDecl => 3,
            EntityKind::ClassDecl => 4,
            EntityKind::EnumDecl => 5,
            EntityKind::FieldDecl => 6,
            EntityKind::EnumConstantDecl => 7,
            EntityKind::FunctionDecl => 8,
            EntityKind::VarDecl => 9,
            EntityKind::ParmDecl => 10,
            EntityKind::ObjCInterfaceDecl => 11,
            EntityKind::ObjCCategoryDecl => 12,
            EntityKind::ObjCProtocolDecl => 13,
            EntityKind::ObjCPropertyDecl => 14,
            EntityKind::ObjCIvarDecl => 15,
            EntityKind::ObjCInstanceMethodDecl => 16,
            EntityKind::ObjCClassMethodDecl => 17,
            EntityKind::ObjCImplementationDecl => 18,
            EntityKind::ObjCCategoryImplDecl => 19,
            EntityKind::TypedefDecl => 20,
            EntityKind::Method => 21,
            EntityKind::Namespace => 22,
            EntityKind::LinkageSpec => 23,
            EntityKind::Constructor => 24,
            EntityKind::Destructor => 25,
            EntityKind::ConversionFunction => 26,
            EntityKind::TemplateTypeParameter => 27,
            EntityKind::NonTypeTemplateParameter => 28,
            EntityKind::TemplateTemplateParameter => 29,
            EntityKind::FunctionTemplate => 30,
            EntityKind::ClassTemplate => 31,
            EntityKind::ClassTemplatePartialSpecialization => 32,
            EntityKind::NamespaceAlias => 33,
            EntityKind::UsingDirective => 34,
            EntityKind::UsingDeclaration => 35,
            EntityKind::TypeAliasDecl => 36,
            EntityKind::ObjCSynthesizeDecl => 37,
            EntityKind::ObjCDynamicDecl => 38,
            EntityKind::AccessSpecifier => 39,
            EntityKind::ObjCSuperClassRef => 40,
            EntityKind::ObjCProtocolRef => 41,
            EntityKind::ObjCClassRef => 42,
            EntityKind::TypeRef => 43,
            EntityKind::BaseSpecifier => 44,
            EntityKind::TemplateRef => 45,
            EntityKind::NamespaceRef => 46,
            EntityKind::MemberRef => 47,
            EntityKind::LabelRef => 48,
            EntityKind::OverloadedDeclRef => 49,
            EntityKind::VariableRef => 50,
            EntityKind::InvalidFile => 70,
            EntityKind::InvalidDecl => 71,
            EntityKind::NotImplemented => 72,
            EntityKind::InvalidCode => 73,
            EntityKind::UnexposedExpr => 100,
            EntityKind::DeclRefExpr => 101,
            EntityKind::MemberRefExpr => 102,
            EntityKind::CallExpr => 103,
            EntityKind::ObjCMessageExpr => 104,
            EntityKind::BlockExpr => 105,
            EntityKind::IntegerLiteral => 106,
            EntityKind::FloatingLiteral => 107,
            EntityKind::ImaginaryLiteral => 108,
            EntityKind::StringLiteral => 109,
            EntityKind::CharacterLiteral => 110,
            EntityKind::ParenExpr => 111,
            EntityKind::UnaryOperator => 112,
            EntityKind::ArraySubscriptExpr => 113,
            EntityKind::BinaryOperator => 114,
            EntityKind::CompoundAssignOperator => 115,
            EntityKind::ConditionalOperator => 116,
            EntityKind::CStyleCastExpr => 117,
            EntityKind::CompoundLiteralExpr => 118,
            EntityKind::InitListExpr => 119,
            EntityKind::AddrLabelExpr => 120,
            EntityKind::StmtExpr => 121,
            EntityKind::GenericSelectionExpr => 122,
            EntityKind::GNUNullExpr => 123,
            EntityKind::StaticCastExpr => 124,
            EntityKind::DynamicCastExpr => 125,
            EntityKind::ReinterpretCastExpr => 126,
            EntityKind::ConstCastExpr => 127,
            EntityKind::FunctionalCastExpr => 128,
            EntityKind::TypeidExpr => 129,
            EntityKind::BoolLiteralExpr => 130,
            EntityKind::NullPtrLiteralExpr => 131,
            EntityKind::ThisExpr => 132,
            EntityKind::ThrowExpr => 133,
            EntityKind::NewExpr => 134,
            EntityKind::DeleteExpr => 135,
            EntityKind::UnaryExpr => 136,
            EntityKind::ObjCStringLiteral => 137,
            EntityKind::ObjCEncodeExpr => 138,
            EntityKind::ObjCSelectorExpr => 139,
            EntityKind::ObjCProtocolExpr => 140,
            EntityKind::ObjCBridgedCastExpr => 141,
            EntityKind::PackExpansionExpr => 142,
            EntityKind::SizeOfPackExpr => 143,
            EntityKind::LambdaExpr => 144,
            EntityKind::ObjCBoolLiteralExpr => 145,
            EntityKind::ObjCSelfExpr => 146,
            EntityKind::OmpArraySectionExpr => 147,
            EntityKind::ObjCAvailabilityCheckExpr => 148,
            EntityKind::FixedPointLiteral => 149,
            EntityKind::UnexposedStmt => 200,
            EntityKind::LabelStmt => 201,
            EntityKind::CompoundStmt => 202,
            EntityKind::CaseStmt => 203,
            EntityKind::DefaultStmt => 204,
            EntityKind::IfStmt => 205,
            EntityKind::SwitchStmt => 206,
            EntityKind::WhileStmt => 207,
            EntityKind::DoStmt => 208,
            EntityKind::ForStmt => 209,
            EntityKind::GotoStmt => 210,
            EntityKind::IndirectGotoStmt => 211,
            EntityKind::ContinueStmt => 212,
            EntityKind::BreakStmt => 213,
            EntityKind::ReturnStmt => 214,
            EntityKind::AsmStmt => 215,
            EntityKind::ObjCAtTryStmt => 216,
            EntityKind::ObjCAtCatchStmt => 217,
            EntityKind::ObjCAtFinallyStmt => 218,
            EntityKind::ObjCAtThrowStmt => 219,
            EntityKind::ObjCAtSynchronizedStmt => 220,
            EntityKind::ObjCAutoreleasePoolStmt => 221,
            EntityKind::ObjCForCollectionStmt => 222,
            EntityKind::CatchStmt => 223,
            EntityKind::TryStmt => 224,
            EntityKind::ForRangeStmt => 225,
            EntityKind::SehTryStmt => 226,
            EntityKind::SehExceptStmt => 227,
            EntityKind::SehFinallyStmt => 228,
            EntityKind::SehLeaveStmt => 247,
            EntityKind::MsAsmStmt => 229,
            EntityKind::NullStmt => 230,
            EntityKind::DeclStmt => 231,
            EntityKind::OmpParallelDirective => 232,
            EntityKind::OmpSimdDirective => 233,
            EntityKind::OmpForDirective => 234,
            EntityKind::OmpSectionsDirective => 235,
            EntityKind::OmpSectionDirective => 236,
            EntityKind::OmpSingleDirective => 237,
            EntityKind::OmpParallelForDirective => 238,
            EntityKind::OmpParallelSectionsDirective => 239,
            EntityKind::OmpTaskDirective => 240,
            EntityKind::OmpMasterDirective => 241,
            EntityKind::OmpCriticalDirective => 242,
            EntityKind::OmpTaskyieldDirective => 243,
            EntityKind::OmpBarrierDirective => 244,
            EntityKind::OmpTaskwaitDirective => 245,
            EntityKind::OmpFlushDirective => 246,
            EntityKind::OmpOrderedDirective => 248,
            EntityKind::OmpAtomicDirective => 249,
            EntityKind::OmpForSimdDirective => 250,
            EntityKind::OmpParallelForSimdDirective => 251,
            EntityKind::OmpTargetDirective => 252,
            EntityKind::OmpTeamsDirective => 253,
            EntityKind::OmpTaskgroupDirective => 254,
            EntityKind::OmpCancellationPointDirective => 255,
            EntityKind::OmpCancelDirective => 256,
            EntityKind::OmpTargetDataDirective => 257,
            EntityKind::OmpTaskLoopDirective => 258,
            EntityKind::OmpTaskLoopSimdDirective => 259,
            EntityKind::OmpDistributeDirective => 260,
            EntityKind::OmpTargetEnterDataDirective => 261,
            EntityKind::OmpTargetExitDataDirective => 262,
            EntityKind::OmpTargetParallelDirective => 263,
            EntityKind::OmpTargetParallelForDirective => 264,
            EntityKind::OmpTargetUpdateDirective => 265,
            EntityKind::OmpDistributeParallelForDirective => 266,
            EntityKind::OmpDistributeParallelForSimdDirective => 267,
            EntityKind::OmpDistributeSimdDirective => 268,
            EntityKind::OmpTargetParallelForSimdDirective => 269,
            EntityKind::OmpTargetSimdDirective => 270,
            EntityKind::OmpTeamsDistributeDirective => 271,
            EntityKind::OmpTeamsDistributeSimdDirective => 272,
            EntityKind::OmpTeamsDistributeParallelForSimdDirective => 273,
            EntityKind::OmpTeamsDistributeParallelForDirective => 274,
            EntityKind::OmpTargetTeamsDirective => 275,
            EntityKind::OmpTargetTeamsDistributeDirective => 276,
            EntityKind::OmpTargetTeamsDistributeParallelForDirective => 277,
            EntityKind::OmpTargetTeamsDistributeParallelForSimdDirective => 278,
            EntityKind::OmpTargetTeamsDistributeSimdDirective => 279,
            EntityKind::BitCastExpr => 280,
            EntityKind::OmpMasterTaskLoopDirective => 281,
            EntityKind::OmpParallelMasterTaskLoopDirective => 282,
            EntityKind::OmpMasterTaskLoopSimdDirective => 283,
            EntityKind::OmpParallelMasterTaskLoopSimdDirective => 284,
            EntityKind::OmpParallelMasterDirective => 285,
            EntityKind::TranslationUnit => 300,
            EntityKind::UnexposedAttr => 400,
            EntityKind::IbActionAttr => 401,
            EntityKind::IbOutletAttr => 402,
            EntityKind::IbOutletCollectionAttr => 403,
            EntityKind::FinalAttr => 404,
            EntityKind::OverrideAttr => 405,
            EntityKind::AnnotateAttr => 406,
            EntityKind::AsmLabelAttr => 407,
            EntityKind::PackedAttr => 408,
            EntityKind::PureAttr => 409,
            EntityKind::ConstAttr => 410,
            EntityKind::NoDuplicateAttr => 411,
            EntityKind::CudaConstantAttr => 412,
            EntityKind::CudaDeviceAttr => 413,
            EntityKind::CudaGlobalAttr => 414,
            EntityKind::CudaHostAttr => 415,
            EntityKind::CudaSharedAttr => 416,
            EntityKind::VisibilityAttr => 417,
            EntityKind::DllExport => 418,
            EntityKind::DllImport => 419,
            EntityKind::NSReturnsRetained => 420,
            EntityKind::NSReturnsNotRetained => 421,
            EntityKind::NSReturnsAutoreleased => 422,
            EntityKind::NSConsumesSelf => 423,
            EntityKind::NSConsumed => 424,
            EntityKind::ObjCException => 425,
            EntityKind::ObjCNSObject => 426,
            EntityKind::ObjCIndependentClass => 427,
            EntityKind::ObjCPreciseLifetime => 428,
            EntityKind::ObjCReturnsInnerPointer => 429,
            EntityKind::ObjCRequiresSuper => 430,
            EntityKind::ObjCRootClass => 431,
            EntityKind::ObjCSubclassingRestricted => 432,
            EntityKind::ObjCExplicitProtocolImpl => 433,
            EntityKind::ObjCDesignatedInitializer => 434,
            EntityKind::ObjCRuntimeVisible => 435,
            EntityKind::ObjCBoxable => 436,
            EntityKind::FlagEnum => 437,
            EntityKind::ConvergentAttr => 438,
            EntityKind::WarnUnusedAttr => 439,
            EntityKind::WarnUnusedResultAttr => 440,
            EntityKind::AlignedAttr => 441,
            EntityKind::PreprocessingDirective => 500,
            EntityKind::MacroDefinition => 501,
            EntityKind::MacroExpansion => 502,
            EntityKind::InclusionDirective => 503,
            EntityKind::ModuleImportDecl => 600,
            EntityKind::TypeAliasTemplateDecl => 601,
            EntityKind::StaticAssert => 602,
            EntityKind::FriendDecl => 603,
            EntityKind::OverloadCandidate => 700,
        }
    }

    /// Whether `raw` is one of the values that `from_raw` recognises.
    pub open spec fn is_code(raw: int) -> bool {
        ||| 1 <= raw <= 50
        ||| 70 <= raw <= 73
        ||| 100 <= raw <= 149
        ||| 200 <= raw <= 285
        ||| raw == 300
        ||| 400 <= raw <= 441
        ||| 500 <= raw <= 503
        ||| 600 <= raw <= 603
        ||| raw == 700
    }

    /// Returns the entity kind that libclang denotes by `raw`, if `raw` is a recognised value.
    #[verifier::rlimit(100)]
    #[verifier::spinoff_prover]
    pub fn from_raw(raw: i32) -> (result: Option<Self>)
        ensures
            result is Some <==> Self::is_code(raw as int),
            result matches Some(k) ==> k.code() == raw,
    {
        match raw {
            1 => Some(EntityKind::UnexposedDecl),
            2 => Some(EntityKind::StructDecl),
            3 => Some(EntityKind::UnionDecl),
            4 => Some(EntityKind::ClassDecl),
            5 => Some(EntityKind::EnumDecl),
            6 => Some(EntityKind::FieldDecl),
            7 => Some(EntityKind::EnumConstantDecl),
            8 => Some(EntityKind::FunctionDecl),
            9 => Some(EntityKind::VarDecl),
            10 => Some(EntityKind::ParmDecl),
            11 => Some(EntityKind::ObjCInterfaceDecl),
            12 => Some(EntityKind::ObjCCategoryDecl),
            13 => Some(EntityKind::ObjCProtocolDecl),
            14 => Some(EntityKind::ObjCPropertyDecl),
            15 => Some(EntityKind::ObjCIvarDecl),
            16 => Some(EntityKind::ObjCInstanceMethodDecl),
            17 => Some(EntityKind::ObjCClassMethodDecl),
            18 => Some(EntityKind::ObjCImplementationDecl),
            19 => Some(EntityKind::ObjCCategoryImplDecl),
            20 => Some(EntityKind::TypedefDecl),
            21 => Some(EntityKind::Method),
            22 => Some(EntityKind::Namespace),
            23 => Some(EntityKind::LinkageSpec),
            24 => Some(EntityKind::Constructor),
            25 => Some(EntityKind::Destructor),
            26 => Some(EntityKind::ConversionFunction),
            27 => Some(EntityKind::TemplateTypeParameter),
            28 => Some(EntityKind::NonTypeTemplateParameter),
            29 => Some(EntityKind::TemplateTemplateParameter),
            30 => Some(EntityKind::FunctionTemplate),
            31 => Some(EntityKind::ClassTemplate),
            32 => Some(EntityKind::ClassTemplatePartialSpecialization),
            33 => Some(EntityKind::NamespaceAlias),
            34 => Some(EntityKind::UsingDirective),
            35 => Some(EntityKind::UsingDeclaration),
            36 => Some(EntityKind::TypeAliasDecl),
            37 => Some(EntityKind::ObjCSynthesizeDecl),
            38 => Some(EntityKind::ObjCDynamicDecl),
            39 => Some(EntityKind::AccessSpecifier),
            40 => Some(EntityKind::ObjCSuperClassRef),
            41 => Some(EntityKind::ObjCProtocolRef),
            42 => Some(EntityKind::ObjCClassRef),
            43 => Some(EntityKind::TypeRef),
            44 => Some(EntityKind::BaseSpecifier),
            45 => Some(EntityKind::TemplateRef),
            46 => Some(EntityKind::NamespaceRef),
            47 => Some(EntityKind::MemberRef),
            48 => Some(EntityKind::LabelRef),
            49 => Some(EntityKind::OverloadedDeclRef),
            50 => Some(EntityKind::VariableRef),
            70 => Some(EntityKind::InvalidFile),
            71 => Some(EntityKind::InvalidDecl),
            72 => Some(EntityKind::NotImplemented),
            73 => Some(EntityKind::InvalidCode),
            100 => Some(EntityKind::UnexposedExpr),
            101 => Some(EntityKind::DeclRefExpr),
            102 => Some(EntityKind::MemberRefExpr),
            103 => Some(EntityKind::CallExpr),
            104 => Some(EntityKind::ObjCMessageExpr),
            105 => Some(EntityKind::BlockExpr),
            106 => Some(EntityKind::IntegerLiteral),
            107 => Some(EntityKind::FloatingLiteral),
            108 => Some(EntityKind::ImaginaryLiteral),
            109 => Some(EntityKind::StringLiteral),
            110 => Some(EntityKind::CharacterLiteral),
            111 => Some(EntityKind::ParenExpr),
            112 => Some(EntityKind::UnaryOperator),
            113 => Some(EntityKind::ArraySubscriptExpr),
            114 => Some(EntityKind::BinaryOperator),
            115 => Some(EntityKind::CompoundAssignOperator),
            116 => Some(EntityKind::ConditionalOperator),
            117 => Some(EntityKind::CStyleCastExpr),
            118 => Some(EntityKind::CompoundLiteralExpr),
            119 => Some(EntityKind::InitListExpr),
            120 => Some(EntityKind::AddrLabelExpr),
            121 => Some(EntityKind::StmtExpr),
            122 => Some(EntityKind::GenericSelectionExpr),
            123 => Some(EntityKind::GNUNullExpr),
            124 => Some(EntityKind::StaticCastExpr),
            125 => Some(EntityKind::DynamicCastExpr),
            126 => Some(EntityKind::ReinterpretCastExpr),
            127 => Some(EntityKind::ConstCastExpr),
            128 => Some(EntityKind::FunctionalCastExpr),
            129 => Some(EntityKind::TypeidExpr),
            130 => Some(EntityKind::BoolLiteralExpr),
            131 => Some(EntityKind::NullPtrLiteralExpr),
            132 => Some(EntityKind::ThisExpr),
            133 => Some(EntityKind::ThrowExpr),
            134 => Some(EntityKind::NewExpr),
            135 => Some(EntityKind::DeleteExpr),
            136 => Some(EntityKind::UnaryExpr),
            137 => Some(EntityKind::ObjCStringLiteral),
            138 => Some(EntityKind::ObjCEncodeExpr),
            139 => Some(EntityKind::ObjCSelectorExpr),
            140 => Some(EntityKind::ObjCProtocolExpr),
            141 => Some(EntityKind::ObjCBridgedCastExpr),
            142 => Some(EntityKind::PackExpansionExpr),
            143 => Some(EntityKind::SizeOfPackExpr),
            144 => Some(EntityKind::LambdaExpr),
            145 => Some(EntityKind::ObjCBoolLiteralExpr),
            146 => Some(EntityKind::ObjCSelfExpr),
            147 => Some(EntityKind::OmpArraySectionExpr),
            148 => Some(EntityKind::ObjCAvailabilityCheckExpr),
            149 => Some(EntityKind::FixedPointLiteral),
            200 => Some(EntityKind::UnexposedStmt),
            201 => Some(EntityKind::LabelStmt),
            202 => Some(EntityKind::CompoundStmt),
            203 => Some(EntityKind::CaseStmt),
            204 => Some(EntityKind::DefaultStmt),
            205 => Some(EntityKind::IfStmt),
            206 => Some(EntityKind::SwitchStmt),
            207 => Some(EntityKind::WhileStmt),
            208 => Some(EntityKind::DoStmt),
            209 => Some(EntityKind::ForStmt),
            210 => Some(EntityKind::GotoStmt),
            211 => Some(EntityKind::IndirectGotoStmt),
            212 => Some(EntityKind::ContinueStmt),
            213 => Some(EntityKind::BreakStmt),
            214 => Some(EntityKind::ReturnStmt),
            215 => Some(EntityKind::AsmStmt),
            216 => Some(EntityKind::ObjCAtTryStmt),
            217 => Some(EntityKind::ObjCAtCatchStmt),
            218 => Some(EntityKind::ObjCAtFinallyStmt),
            219 => Some(EntityKind::ObjCAtThrowStmt),
            220 => Some(EntityKind::ObjCAtSynchronizedStmt),
            221 => Some(EntityKind::ObjCAutoreleasePoolStmt),
            222 => Some(EntityKind::ObjCForCollectionStmt),
            223 => Some(EntityKind::CatchStmt),
            224 => Some(EntityKind::TryStmt),
            225 => Some(EntityKind::ForRangeStmt),
            226 => Some(EntityKind::SehTryStmt),
            227 => Some(EntityKind::SehExceptStmt),
            228 => Some(EntityKind::SehFinallyStmt),
            229 => Some(EntityKind::MsAsmStmt),
            230 => Some(EntityKind::NullStmt),
            231 => Some(EntityKind::DeclStmt),
            232 => Some(EntityKind::OmpParallelDirective),
            233 => Some(EntityKind::OmpSimdDirective),
            234 => Some(EntityKind::OmpForDirective),
            235 => Some(EntityKind::OmpSectionsDirective),
            236 => Some(EntityKind::OmpSectionDirective),
            237 => Some(EntityKind::OmpSingleDirective),
            238 => Some(EntityKind::OmpParallelForDirective),
            239 => Some(EntityKind::OmpParallelSectionsDirective),
            240 => Some(EntityKind::OmpTaskDirective),
            241 => Some(EntityKind::OmpMasterDirective),
            242 => Some(EntityKind::OmpCriticalDirective),
            243 => Some(EntityKind::OmpTaskyieldDirective),
            244 => Some(EntityKind::OmpBarrierDirective),
            245 => Some(EntityKind::OmpTaskwaitDirective),
            246 => Some(EntityKind::OmpFlushDirective),
            247 => Some(EntityKind::SehLeaveStmt),
            248 => Some(EntityKind::OmpOrderedDirective),
            249 => Some(EntityKind::OmpAtomicDirective),
            250 => Some(EntityKind::OmpForSimdDirective),
            251 => Some(EntityKind::OmpParallelForSimdDirective),
            252 => Some(EntityKind::OmpTargetDirective),
            253 => Some(EntityKind::OmpTeamsDirective),
            254 => Some(EntityKind::OmpTaskgroupDirective),
            255 => Some(EntityKind::OmpCancellationPointDirective),
            256 => Some(EntityKind::OmpCancelDirective),
            257 => Some(EntityKind::OmpTargetDataDirective),
            258 => Some(EntityKind::OmpTaskLoopDirective),
            259 => Some(EntityKind::OmpTaskLoopSimdDirective),
            260 => Some(EntityKind::OmpDistributeDirective),
            261 => Some(EntityKind::OmpTargetEnterDataDirective),
            262 => Some(EntityKind::OmpTargetExitDataDirective),
            263 => Some(EntityKind::OmpTargetParallelDirective),
            264 => Some(EntityKind::OmpTargetParallelForDirective),
            265 => Some(EntityKind::OmpTargetUpdateDirective),
            266 => Some(EntityKind::OmpDistributeParallelForDirective),
            267 => Some(EntityKind::OmpDistributeParallelForSimdDirective),
            268 => Some(EntityKind::OmpDistributeSimdDirective),
            269 => Some(EntityKind::OmpTargetParallelForSimdDirective),
            270 => Some(EntityKind::OmpTargetSimdDirective),
            271 => Some(EntityKind::OmpTeamsDistributeDirective),
            272 => Some(EntityKind::OmpTeamsDistributeSimdDirective),
            273 => Some(EntityKind::OmpTeamsDistributeParallelForSimdDirective),
            274 => Some(EntityKind::OmpTeamsDistributeParallelForDirective),
            275 => Some(EntityKind::OmpTargetTeamsDirective),
            276 => Some(EntityKind::OmpTargetTeamsDistributeDirective),
            277 => Some(EntityKind::OmpTargetTeamsDistributeParallelForDirective),
            278 => Some(EntityKind::OmpTargetTeamsDistributeParallelForSimdDirective),
            279 => Some(EntityKind::OmpTargetTeamsDistributeSimdDirective),
            280 => Some(EntityKind::BitCastExpr),
            281 => Some(EntityKind::OmpMasterTaskLoopDirective),
            282 => Some(EntityKind::OmpParallelMasterTaskLoopDirective),
            283 => Some(EntityKind::OmpMasterTaskLoopSimdDirective),
            284 => Some(EntityKind::OmpParallelMasterTaskLoopSimdDirective),
            285 => Some(EntityKind::OmpParallelMasterDirective),
            300 => Some(EntityKind::TranslationUnit),
            400 => Some(EntityKind::UnexposedAttr),
            401 => Some(EntityKind::IbActionAttr),
            402 => Some(EntityKind::IbOutletAttr),
            403 => Some(EntityKind::IbOutletCollectionAttr),
            404 => Some(EntityKind::FinalAttr),
            405 => Some(EntityKind::OverrideAttr),
            406 => Some(EntityKind::AnnotateAttr),
            407 => Some(EntityKind::AsmLabelAttr),
            408 => Some(EntityKind::PackedAttr),
            409 => Some(EntityKind::PureAttr),
            410 => Some(EntityKind::ConstAttr),
            411 => Some(EntityKind::NoDuplicateAttr),
            412 => Some(EntityKind::CudaConstantAttr),
            413 => Some(EntityKind::CudaDeviceAttr),
            414 => Some(EntityKind::CudaGlobalAttr),
            415 => Some(EntityKind::CudaHostAttr),
            416 => Some(EntityKind::CudaSharedAttr),
            417 => Some(EntityKind::VisibilityAttr),
            418 => Some(EntityKind::DllExport),
            419 => Some(EntityKind::DllImport),
            420 => Some(EntityKind::NSReturnsRetained),
            421 => Some(EntityKind::NSReturnsNotRetained),
            422 => Some(EntityKind::NSReturnsAutoreleased),
            423 => Some(EntityKind::NSConsumesSelf),
            424 => Some(EntityKind::NSConsumed),
            425 => Some(EntityKind::ObjCException),
            426 => Some(EntityKind::ObjCNSObject),
            427 => Some(EntityKind::ObjCIndependentClass),
            428 => Some(EntityKind::ObjCPreciseLifetime),
            429 => Some(EntityKind::ObjCReturnsInnerPointer),
            430 => Some(EntityKind::ObjCRequiresSuper),
            431 => Some(EntityKind::ObjCRootClass),
            432 => Some(EntityKind::ObjCSubclassingRestricted),
            433 => Some(EntityKind::ObjCExplicitProtocolImpl),
            434 => Some(EntityKind::ObjCDesignatedInitializer),
            435 => Some(EntityKind::ObjCRuntimeVisible),
            436 => Some(EntityKind::ObjCBoxable),
            437 => Some(EntityKind::FlagEnum),
            438 => Some(EntityKind::ConvergentAttr),
            439 => Some(EntityKind::WarnUnusedAttr),
            440 => Some(EntityKind::WarnUnusedResultAttr),
            441 => Some(EntityKind::AlignedAttr),
            500 => Some(EntityKind::PreprocessingDirective),
            501 => Some(EntityKind::MacroDefinition),
            502 => Some(EntityKind::MacroExpansion),
            503 => Some(EntityKind::InclusionDirective),
            600 => Some(EntityKind::ModuleImportDecl),
            601 => Some(EntityKind::TypeAliasTemplateDecl),
            602 => Some(EntityKind::StaticAssert),
            603 => Some(EntityKind::FriendDecl),
            700 => Some(EntityKind::OverloadCandidate),
            _ => None,
        }
    }

    spec fn decode(raw: int) -> Option<Self> {
        if raw == 1 {
            Some(EntityKind::UnexposedDecl)
        } else if raw == 2 {
            Some(EntityKind::StructDecl)
        } else if raw == 3 {
            Some(EntityKind::UnionDecl)
        } else if raw == 4 {
            Some(EntityKind::ClassDecl)
        } else if raw == 5 {
            Some(EntityKind::EnumDecl)
        } else if raw == 6 {
            Some(EntityKind::FieldDecl)
        } else if raw == 7 {
            Some(EntityKind::EnumConstantDecl)
        } else if raw == 8 {
            Some(EntityKind::FunctionDecl)
        } else if raw == 9 {
            Some(EntityKind::VarDecl)
        } else if raw == 10 {
            Some(EntityKind::ParmDecl)
        } else if raw == 11 {
            Some(EntityKind::ObjCInterfaceDecl)
        } else if raw == 12 {
            Some(EntityKind::ObjCCategoryDecl)
        } else if raw == 13 {
            Some(EntityKind::ObjCProtocolDecl)
        } else if raw == 14 {
            Some(EntityKind::ObjCPropertyDecl)
        } else if raw == 15 {
            Some(EntityKind::ObjCIvarDecl)
        } else if raw == 16 {
            Some(EntityKind::ObjCInstanceMethodDecl)
        } else if raw == 17 {
            Some(EntityKind::ObjCClassMethodDecl)
        } else if raw == 18 {
            Some(EntityKind::ObjCImplementationDecl)
        } else if raw == 19 {
            Some(EntityKind::ObjCCategoryImplDecl)
        } else if raw == 20 {
            Some(EntityKind::TypedefDecl)
        } else if raw == 21 {
            Some(EntityKind::Method)
        } else if raw == 22 {
            Some(EntityKind::Namespace)
        } else if raw == 23 {
            Some(EntityKind::LinkageSpec)
        } else if raw == 24 {
            Some(EntityKind::Constructor)
        } else if raw == 25 {
            Some(EntityKind::Destructor)
        } else if raw == 26 {
            Some(EntityKind::ConversionFunction)
        } else if raw == 27 {
            Some(EntityKind::TemplateTypeParameter)
        } else if raw == 28 {
            Some(EntityKind::NonTypeTemplateParameter)
        } else if raw == 29 {
            Some(EntityKind::TemplateTemplateParameter)
        } else if raw == 30 {
            Some(EntityKind::FunctionTemplate)
        } else if raw == 31 {
            Some(EntityKind::ClassTemplate)
        } else if raw == 32 {
            Some(EntityKind::ClassTemplatePartialSpecialization)
        } else if raw == 33 {
            Some(EntityKind::NamespaceAlias)
        } else if raw == 34 {
            Some(EntityKind::UsingDirective)
        } else if raw == 35 {
            Some(EntityKind::UsingDeclaration)
        } else if raw == 36 {
            Some(EntityKind::TypeAliasDecl)
        } else if raw == 37 {
            Some(EntityKind::ObjCSynthesizeDecl)
        } else if raw == 38 {
            Some(EntityKind::ObjCDynamicDecl)
        } else if raw == 39 {
            Some(EntityKind::AccessSpecifier)
        } else if raw == 40 {
            Some(EntityKind::ObjCSuperClassRef)
        } else if raw == 41 {
            Some(EntityKind::ObjCProtocolRef)
        } else if raw == 42 {
            Some(EntityKind::ObjCClassRef)
        } else if raw == 43 {
            Some(EntityKind::TypeRef)
        } else if raw == 44 {
            Some(EntityKind::BaseSpecifier)
        } else if raw == 45 {
            Some(EntityKind::TemplateRef)
        } else if raw == 46 {
            Some(EntityKind::NamespaceRef)
        } else if raw == 47 {
            Some(EntityKind::MemberRef)
        } else if raw == 48 {
            Some(EntityKind::LabelRef)
        } else if raw == 49 {
            Some(EntityKind::OverloadedDeclRef)
        } else if raw == 50 {
            Some(EntityKind::VariableRef)
        } else if raw == 70 {
            Some(EntityKind::InvalidFile)
        } else if raw == 71 {
            Some(EntityKind::InvalidDecl)
        } else if raw == 72 {
            Some(EntityKind::NotImplemented)
        } else if raw == 73 {
            Some(EntityKind::InvalidCode)
        } else if raw == 100 {
            Some(EntityKind::UnexposedExpr)
        } else if raw == 101 {
            Some(EntityKind::DeclRefExpr)
        } else if raw == 102 {
            Some(EntityKind::MemberRefExpr)
        } else if raw == 103 {
            Some(EntityKind::CallExpr)
        } else if raw == 104 {
            Some(EntityKind::ObjCMessageExpr)
        } else if raw == 105 {
            Some(EntityKind::BlockExpr)
        } else if raw == 106 {
            Some(EntityKind::IntegerLiteral)
        } else if raw == 107 {
            Some(EntityKind::FloatingLiteral)
        } else if raw == 108 {
            Some(EntityKind::ImaginaryLiteral)
        } else if raw == 109 {
            Some(EntityKind::StringLiteral)
        } else if raw == 110 {
            Some(EntityKind::CharacterLiteral)
        } else if raw == 111 {
            Some(EntityKind::ParenExpr)
        } else if raw == 112 {
            Some(EntityKind::UnaryOperator)
        } else if raw == 113 {
            Some(EntityKind::ArraySubscriptExpr)
        } else if raw == 114 {
            Some(EntityKind::BinaryOperator)
        } else if raw == 115 {
            Some(EntityKind::CompoundAssignOperator)
        } else if raw == 116 {
            Some(EntityKind::ConditionalOperator)
        } else if raw == 117 {
            Some(EntityKind::CStyleCastExpr)
        } else if raw == 118 {
            Some(EntityKind::CompoundLiteralExpr)
        } else if raw == 119 {
            Some(EntityKind::InitListExpr)
        } else if raw == 120 {
            Some(EntityKind::AddrLabelExpr)
        } else if raw == 121 {
            Some(EntityKind::StmtExpr)
        } else if raw == 122 {
            Some(EntityKind::GenericSelectionExpr)
        } else if raw == 123 {
            Some(EntityKind::GNUNullExpr)
        } else if raw == 124 {
            Some(EntityKind::StaticCastExpr)
        } else if raw == 125 {
            Some(EntityKind::DynamicCastExpr)
        } else if raw == 126 {
            Some(EntityKind::ReinterpretCastExpr)
        } else if raw == 127 {
            Some(EntityKind::ConstCastExpr)
        } else if raw == 128 {
            Some(EntityKind::FunctionalCastExpr)
        } else if raw == 129 {
            Some(EntityKind::TypeidExpr)
        } else if raw == 130 {
            Some(EntityKind::BoolLiteralExpr)
        } else if raw == 131 {
            Some(EntityKind::NullPtrLiteralExpr)
        } else if raw == 132 {
            Some(EntityKind::ThisExpr)
        } else if raw == 133 {
            Some(EntityKind::ThrowExpr)
        } else if raw == 134 {
            Some(EntityKind::NewExpr)
        } else if raw == 135 {
            Some(EntityKind::DeleteExpr)
        } else if raw == 136 {
            Some(EntityKind::UnaryExpr)
        } else if raw == 137 {
            Some(EntityKind::ObjCStringLiteral)
        } else if raw == 138 {
            Some(EntityKind::ObjCEncodeExpr)
        } else if raw == 139 {
            Some(EntityKind::ObjCSelectorExpr)
        } else if raw == 140 {
            Some(EntityKind::ObjCProtocolExpr)
        } else if raw == 141 {
            Some(EntityKind::ObjCBridgedCastExpr)
        } else if raw == 142 {
            Some(EntityKind::PackExpansionExpr)
        } else if raw == 143 {
            Some(EntityKind::SizeOfPackExpr)
        } else if raw == 144 {
            Some(EntityKind::LambdaExpr)
        } else if raw == 145 {
            Some(EntityKind::ObjCBoolLiteralExpr)
        } else if raw == 146 {
            Some(EntityKind::ObjCSelfExpr)
        } else if raw == 147 {
            Some(EntityKind::OmpArraySectionExpr)
        } else if raw == 148 {
            Some(EntityKind::ObjCAvailabilityCheckExpr)
        } else if raw == 149 {
            Some(EntityKind::FixedPointLiteral)
        } else if raw == 200 {
            Some(EntityKind::UnexposedStmt)
        } else if raw == 201 {
            Some(EntityKind::LabelStmt)
        } else if raw == 202 {
            Some(EntityKind::CompoundStmt)
        } else if raw == 203 {
            Some(EntityKind::CaseStmt)
        } else if raw == 204 {
            Some(EntityKind::DefaultStmt)
        } else if raw == 205 {
            Some(EntityKind::IfStmt)
        } else if raw == 206 {
            Some(EntityKind::SwitchStmt)
        } else if raw == 207 {
            Some(EntityKind::WhileStmt)
        } else if raw == 208 {
            Some(EntityKind::DoStmt)
        } else if raw == 209 {
            Some(EntityKind::ForStmt)
        } else if raw == 210 {
            Some(EntityKind::GotoStmt)
        } else if raw == 211 {
            Some(EntityKind::IndirectGotoStmt)
        } else if raw == 212 {
            Some(EntityKind::ContinueStmt)
        } else if raw == 213 {
            Some(EntityKind::BreakStmt)
        } else if raw == 214 {
            Some(EntityKind::ReturnStmt)
        } else if raw == 215 {
            Some(EntityKind::AsmStmt)
        } else if raw == 216 {
            Some(EntityKind::ObjCAtTryStmt)
        } else if raw == 217 {
            Some(EntityKind::ObjCAtCatchStmt)
        } else if raw == 218 {
            Some(EntityKind::ObjCAtFinallyStmt)
        } else if raw == 219 {
            Some(EntityKind::ObjCAtThrowStmt)
        } else if raw == 220 {
            Some(EntityKind::ObjCAtSynchronizedStmt)
        } else if raw == 221 {
            Some(EntityKind::ObjCAutoreleasePoolStmt)
        } else if raw == 222 {
            Some(EntityKind::ObjCForCollectionStmt)
        } else if raw == 223 {
            Some(EntityKind::CatchStmt)
        } else if raw == 224 {
            Some(EntityKind::TryStmt)
        } else if raw == 225 {
            Some(EntityKind::ForRangeStmt)
        } else if raw == 226 {
            Some(EntityKind::SehTryStmt)
        } else if raw == 227 {
            Some(EntityKind::SehExceptStmt)
        } else if raw == 228 {
            Some(EntityKind::SehFinallyStmt)
        } else if raw == 247 {
            Some(EntityKind::SehLeaveStmt)
        } else if raw == 229 {
            Some(EntityKind::MsAsmStmt)
        } else if raw == 230 {
            Some(EntityKind::NullStmt)
        } else if raw == 231 {
            Some(EntityKind::DeclStmt)
        } else if raw == 232 {
            Some(EntityKind::OmpParallelDirective)
        } else if raw == 233 {
            Some(EntityKind::OmpSimdDirective)
        } else if raw == 234 {
            Some(EntityKind::OmpForDirective)
        } else if raw == 235 {
            Some(EntityKind::OmpSectionsDirective)
        } else if raw == 236 {
            Some(EntityKind::OmpSectionDirective)
        } else if raw == 237 {
            Some(EntityKind::OmpSingleDirective)
        } else if raw == 238 {
            Some(EntityKind::OmpParallelForDirective)
        } else if raw == 239 {
            Some(EntityKind::OmpParallelSectionsDirective)
        } else if raw == 240 {
            Some(EntityKind::OmpTaskDirective)
        } else if raw == 241 {
            Some(EntityKind::OmpMasterDirective)
        } else if raw == 242 {
            Some(EntityKind::OmpCriticalDirective)
        } else if raw == 243 {
            Some(EntityKind::OmpTaskyieldDirective)
        } else if raw == 244 {
            Some(EntityKind::OmpBarrierDirective)
        } else if raw == 245 {
            Some(EntityKind::OmpTaskwaitDirective)
        } else if raw == 246 {
            Some(EntityKind::OmpFlushDirective)
        } else if raw == 248 {
            Some(EntityKind::OmpOrderedDirective)
        } else if raw == 249 {
            Some(EntityKind::OmpAtomicDirective)
        } else if raw == 250 {
            Some(EntityKind::OmpForSimdDirective)
        } else if raw == 251 {
            Some(EntityKind::OmpParallelForSimdDirective)
        } else if raw == 252 {
            Some(EntityKind::OmpTargetDirective)
        } else if raw == 253 {
            Some(EntityKind::OmpTeamsDirective)
        } else if raw == 254 {
            Some(EntityKind::OmpTaskgroupDirective)
        } else if raw == 255 {
            Some(EntityKind::OmpCancellationPointDirective)
        } else if raw == 256 {
            Some(EntityKind::OmpCancelDirective)
        } else if raw == 257 {
            Some(EntityKind::OmpTargetDataDirective)
        } else if raw == 258 {
            Some(EntityKind::OmpTaskLoopDirective)
        } else if raw == 259 {
            Some(EntityKind::OmpTaskLoopSimdDirective)
        } else if raw == 260 {
            Some(EntityKind::OmpDistributeDirective)
        } else if raw == 261 {
            Some(EntityKind::OmpTargetEnterDataDirective)
        } else if raw == 262 {
            Some(EntityKind::OmpTargetExitDataDirective)
        } else if raw == 263 {
            Some(EntityKind::OmpTargetParallelDirective)
        } else if raw == 264 {
            Some(EntityKind::OmpTargetParallelForDirective)
        } else if raw == 265 {
            Some(EntityKind::OmpTargetUpdateDirective)
        } else if raw == 266 {
            Some(EntityKind::OmpDistributeParallelForDirective)
        } else if raw == 267 {
            Some(EntityKind::OmpDistributeParallelForSimdDirective)
        } else if raw == 268 {
            Some(EntityKind::OmpDistributeSimdDirective)
        } else if raw == 269 {
            Some(EntityKind::OmpTargetParallelForSimdDirective)
        } else if raw == 270 {
            Some(EntityKind::OmpTargetSimdDirective)
        } else if raw == 271 {
            Some(EntityKind::OmpTeamsDistributeDirective)
        } else if raw == 272 {
            Some(EntityKind::OmpTeamsDistributeSimdDirective)
        } else if raw == 273 {
            Some(EntityKind::OmpTeamsDistributeParallelForSimdDirective)
        } else if raw == 274 {
            Some(EntityKind::OmpTeamsDistributeParallelForDirective)
        } else if raw == 275 {
            Some(EntityKind::OmpTargetTeamsDirective)
        } else if raw == 276 {
            Some(EntityKind::OmpTargetTeamsDistributeDirective)
        } else if raw == 277 {
            Some(EntityKind::OmpTargetTeamsDistributeParallelForDirective)
        } else if raw == 278 {
            Some(EntityKind::OmpTargetTeamsDistributeParallelForSimdDirective)
        } else if raw == 279 {
            Some(EntityKind::OmpTargetTeamsDistributeSimdDirective)
        } else if raw == 280 {
            Some(EntityKind::BitCastExpr)
        } else if raw == 281 {
            Some(EntityKind::OmpMasterTaskLoopDirective)
        } else if raw == 282 {
            Some(EntityKind::OmpParallelMasterTaskLoopDirective)
        } else if raw == 283 {
            Some(EntityKind::OmpMasterTaskLoopSimdDirective)
        } else if raw == 284 {
            Some(EntityKind::OmpParallelMasterTaskLoopSimdDirective)
        } else if raw == 285 {
            Some(EntityKind::OmpParallelMasterDirective)
        } else if raw == 300 {
            Some(EntityKind::TranslationUnit)
        } else if raw == 400 {
            Some(EntityKind::UnexposedAttr)
        } else if raw == 401 {
            Some(EntityKind::IbActionAttr)
        } else if raw == 402 {
            Some(EntityKind::IbOutletAttr)
        } else if raw == 403 {
            Some(EntityKind::IbOutletCollectionAttr)
        } else if raw == 404 {
            Some(EntityKind::FinalAttr)
        } else if raw == 405 {
            Some(EntityKind::OverrideAttr)
        } else if raw == 406 {
            Some(EntityKind::AnnotateAttr)
        } else if raw == 407 {
            Some(EntityKind::AsmLabelAttr)
        } else if raw == 408 {
            Some(EntityKind::PackedAttr)
        } else if raw == 409 {
            Some(EntityKind::PureAttr)
        } else if raw == 410 {
            Some(EntityKind::ConstAttr)
        } else if raw == 411 {
            Some(EntityKind::NoDuplicateAttr)
        } else if raw == 412 {
            Some(EntityKind::CudaConstantAttr)
        } else if raw == 413 {
            Some(EntityKind::CudaDeviceAttr)
        } else if raw == 414 {
            Some(EntityKind::CudaGlobalAttr)
        } else if raw == 415 {
            Some(EntityKind::CudaHostAttr)
        } else if raw == 416 {
            Some(EntityKind::CudaSharedAttr)
        } else if raw == 417 {
            Some(EntityKind::VisibilityAttr)
        } else if raw == 418 {
            Some(EntityKind::DllExport)
        } else if raw == 419 {
            Some(EntityKind::DllImport)
        } else if raw == 420 {
            Some(EntityKind::NSReturnsRetained)
        } else if raw == 421 {
            Some(EntityKind::NSReturnsNotRetained)
        } else if raw == 422 {
            Some(EntityKind::NSReturnsAutoreleased)
        } else if raw == 423 {
            Some(EntityKind::NSConsumesSelf)
        } else if raw == 424 {
            Some(EntityKind::NSConsumed)
        } else if raw == 425 {
            Some(EntityKind::ObjCException)
        } else if raw == 426 {
            Some(EntityKind::ObjCNSObject)
        } else if raw == 427 {
            Some(EntityKind::ObjCIndependentClass)
        } else if raw == 428 {
            Some(EntityKind::ObjCPreciseLifetime)
        } else if raw == 429 {
            Some(EntityKind::ObjCReturnsInnerPointer)
        } else if raw == 430 {
            Some(EntityKind::ObjCRequiresSuper)
        } else if raw == 431 {
            Some(EntityKind::ObjCRootClass)
        } else if raw == 432 {
            Some(EntityKind::ObjCSubclassingRestricted)
        } else if raw == 433 {
            Some(EntityKind::ObjCExplicitProtocolImpl)
        } else if raw == 434 {
            Some(EntityKind::ObjCDesignatedInitializer)
        } else if raw == 435 {
            Some(EntityKind::ObjCRuntimeVisible)
        } else if raw == 436 {
            Some(EntityKind::ObjCBoxable)
        } else if raw == 437 {
            Some(EntityKind::FlagEnum)
        } else if raw == 438 {
            Some(EntityKind::ConvergentAttr)
        } else if raw == 439 {
            Some(EntityKind::WarnUnusedAttr)
        } else if raw == 440 {
            Some(EntityKind::WarnUnusedResultAttr)
        } else if raw == 441 {
            Some(EntityKind::AlignedAttr)
        } else if raw == 500 {
            Some(EntityKind::PreprocessingDirective)
        } else if raw == 501 {
            Some(EntityKind::MacroDefinition)
        } else if raw == 502 {
            Some(EntityKind::MacroExpansion)
        } else if raw == 503 {
            Some(EntityKind::InclusionDirective)
        } else if raw == 600 {
            Some(EntityKind::ModuleImportDecl)
        } else if raw == 601 {
            Some(EntityKind::TypeAliasTemplateDecl)
        } else if raw == 602 {
            Some(EntityKind::StaticAssert)
        } else if raw == 603 {
            Some(EntityKind::FriendDecl)
        } else if raw == 700 {
            Some(EntityKind::OverloadCandidate)
        } else {
            None
        }
    }

    #[verifier::rlimit(100)]
    #[verifier::spinoff_prover]
    proof fn lemma_decode(self)
        ensures
            Self::decode(self.code()) == Some(self),
    {
        match self {
            EntityKind::UnexposedDecl => {},
            EntityKind::StructDecl => {},
            EntityKind::UnionDecl => {},
            EntityKind::ClassDecl => {},
            EntityKind::EnumDecl => {},
            EntityKind::FieldDecl => {},
            EntityKind::EnumConstantDecl => {},
            EntityKind::FunctionDecl => {},
            EntityKind::VarDecl => {},
            EntityKind::ParmDecl => {},
            EntityKind::ObjCInterfaceDecl => {},
            EntityKind::ObjCCategoryDecl => {},
            EntityKind::ObjCProtocolDecl => {},
            EntityKind::ObjCPropertyDecl => {},
            EntityKind::ObjCIvarDecl => {},
            EntityKind::ObjCInstanceMethodDecl => {},
            EntityKind::ObjCClassMethodDecl => {},
            EntityKind::ObjCImplementationDecl => {},
            EntityKind::ObjCCategoryImplDecl => {},
            EntityKind::TypedefDecl => {},
            EntityKind::Method => {},
            EntityKind::Namespace => {},
            EntityKind::LinkageSpec => {},
            EntityKind::Constructor => {},
            EntityKind::Destructor => {},
            EntityKind::ConversionFunction => {},
            EntityKind::TemplateTypeParameter => {},
            EntityKind::NonTypeTemplateParameter => {},
            EntityKind::TemplateTemplateParameter => {},
            EntityKind::FunctionTemplate => {},
            EntityKind::ClassTemplate => {},
            EntityKind::ClassTemplatePartialSpecialization => {},
            EntityKind::NamespaceAlias => {},
            EntityKind::UsingDirective => {},
            EntityKind::UsingDeclaration => {},
            EntityKind::TypeAliasDecl => {},
            EntityKind::ObjCSynthesizeDecl => {},
            EntityKind::ObjCDynamicDecl => {},
            EntityKind::AccessSpecifier => {},
            EntityKind::ObjCSuperClassRef => {},
            EntityKind::ObjCProtocolRef => {},
            EntityKind::ObjCClassRef => {},
            EntityKind::TypeRef => {},
            EntityKind::BaseSpecifier => {},
            EntityKind::TemplateRef => {},
            EntityKind::NamespaceRef => {},
            EntityKind::MemberRef => {},
            EntityKind::LabelRef => {},
            EntityKind::OverloadedDeclRef => {},
            EntityKind::VariableRef => {},
            EntityKind::InvalidFile => {},
            EntityKind::InvalidDecl => {},
            EntityKind::NotImplemented => {},
            EntityKind::InvalidCode => {},
            EntityKind::UnexposedExpr => {},
            EntityKind::DeclRefExpr => {},
            EntityKind::MemberRefExpr => {},
            EntityKind::CallExpr => {},
            EntityKind::ObjCMessageExpr => {},
            EntityKind::BlockExpr => {},
            EntityKind::IntegerLiteral => {},
            EntityKind::FloatingLiteral => {},
            EntityKind::ImaginaryLiteral => {},
            EntityKind::StringLiteral => {},
            EntityKind::CharacterLiteral => {},
            EntityKind::ParenExpr => {},
            EntityKind::UnaryOperator => {},
            EntityKind::ArraySubscriptExpr => {},
            EntityKind::BinaryOperator => {},
            EntityKind::CompoundAssignOperator => {},
            EntityKind::ConditionalOperator => {},
            EntityKind::CStyleCastExpr => {},
            EntityKind::CompoundLiteralExpr => {},
            EntityKind::InitListExpr => {},
            EntityKind::AddrLabelExpr => {},
            EntityKind::StmtExpr => {},
            EntityKind::GenericSelectionExpr => {},
            EntityKind::GNUNullExpr => {},
            EntityKind::StaticCastExpr => {},
            EntityKind::DynamicCastExpr => {},
            EntityKind::ReinterpretCastExpr => {},
            EntityKind::ConstCastExpr => {},
            EntityKind::FunctionalCastExpr => {},
            EntityKind::TypeidExpr => {},
            EntityKind::BoolLiteralExpr => {},
            EntityKind::NullPtrLiteralExpr => {},
            EntityKind::ThisExpr => {},
            EntityKind::ThrowExpr => {},
            EntityKind::NewExpr => {},
            EntityKind::DeleteExpr => {},
            EntityKind::UnaryExpr => {},
            EntityKind::ObjCStringLiteral => {},
            EntityKind::ObjCEncodeExpr => {},
            EntityKind::ObjCSelectorExpr => {},
            EntityKind::ObjCProtocolExpr => {},
            EntityKind::ObjCBridgedCastExpr => {},
            EntityKind::PackExpansionExpr => {},
            EntityKind::SizeOfPackExpr => {},
            EntityKind::LambdaExpr => {},
            EntityKind::ObjCBoolLiteralExpr => {},
            EntityKind::ObjCSelfExpr => {},
            EntityKind::OmpArraySectionExpr => {},
            EntityKind::ObjCAvailabilityCheckExpr => {},
            EntityKind::FixedPointLiteral => {},
            EntityKind::UnexposedStmt => {},
            EntityKind::LabelStmt => {},
            EntityKind::CompoundStmt => {},
            EntityKind::CaseStmt => {},
            EntityKind::DefaultStmt => {},
            EntityKind::IfStmt => {},
            EntityKind::SwitchStmt => {},
            EntityKind::WhileStmt => {},
            EntityKind::DoStmt => {},
            EntityKind::ForStmt => {},
            EntityKind::GotoStmt => {},
            EntityKind::IndirectGotoStmt => {},
            EntityKind::ContinueStmt => {},
            EntityKind::BreakStmt => {},
            EntityKind::ReturnStmt => {},
            EntityKind::AsmStmt => {},
            EntityKind::ObjCAtTryStmt => {},
            EntityKind::ObjCAtCatchStmt => {},
            EntityKind::ObjCAtFinallyStmt => {},
            EntityKind::ObjCAtThrowStmt => {},
            EntityKind::ObjCAtSynchronizedStmt => {},
            EntityKind::ObjCAutoreleasePoolStmt => {},
            EntityKind::ObjCForCollectionStmt => {},
            EntityKind::CatchStmt => {},
            EntityKind::TryStmt => {},
            EntityKind::ForRangeStmt => {},
            EntityKind::SehTryStmt => {},
            EntityKind::SehExceptStmt => {},
            EntityKind::SehFinallyStmt => {},
            EntityKind::SehLeaveStmt => {},
            EntityKind::MsAsmStmt => {},
            EntityKind::NullStmt => {},
            EntityKind::DeclStmt => {},
            EntityKind::OmpParallelDirective => {},
            EntityKind::OmpSimdDirective => {},
            EntityKind::OmpForDirective => {},
            EntityKind::OmpSectionsDirective => {},
            EntityKind::OmpSectionDirective => {},
            EntityKind::OmpSingleDirective => {},
            EntityKind::OmpParallelForDirective => {},
            EntityKind::OmpParallelSectionsDirective => {},
            EntityKind::OmpTaskDirective => {},
            EntityKind::OmpMasterDirective => {},
            EntityKind::OmpCriticalDirective => {},
            EntityKind::OmpTaskyieldDirective => {},
            EntityKind::OmpBarrierDirective => {},
            EntityKind::OmpTaskwaitDirective => {},
            EntityKind::OmpFlushDirective => {},
            EntityKind::OmpOrderedDirective => {},
            EntityKind::OmpAtomicDirective => {},
            EntityKind::OmpForSimdDirective => {},
            EntityKind::OmpParallelForSimdDirective => {},
            EntityKind::OmpTargetDirective => {},
            EntityKind::OmpTeamsDirective => {},
            EntityKind::OmpTaskgroupDirective => {},
            EntityKind::OmpCancellationPointDirective => {},
            EntityKind::OmpCancelDirective => {},
            EntityKind::OmpTargetDataDirective => {},
            EntityKind::OmpTaskLoopDirective => {},
            EntityKind::OmpTaskLoopSimdDirective => {},
            EntityKind::OmpDistributeDirective => {},
            EntityKind::OmpTargetEnterDataDirective => {},
            EntityKind::OmpTargetExitDataDirective => {},
            EntityKind::OmpTargetParallelDirective => {},
            EntityKind::OmpTargetParallelForDirective => {},
            EntityKind::OmpTargetUpdateDirective => {},
            EntityKind::OmpDistributeParallelForDirective => {},
            EntityKind::OmpDistributeParallelForSimdDirective => {},
            EntityKind::OmpDistributeSimdDirective => {},
            EntityKind::OmpTargetParallelForSimdDirective => {},
            EntityKind::OmpTargetSimdDirective => {},
            EntityKind::OmpTeamsDistributeDirective => {},
            EntityKind::OmpTeamsDistributeSimdDirective => {},
            EntityKind::OmpTeamsDistributeParallelForSimdDirective => {},
            EntityKind::OmpTeamsDistributeParallelForDirective => {},
            EntityKind::OmpTargetTeamsDirective => {},
            EntityKind::OmpTargetTeamsDistributeDirective => {},
            EntityKind::OmpTargetTeamsDistributeParallelForDirective => {},
            EntityKind::OmpTargetTeamsDistributeParallelForSimdDirective => {},
            EntityKind::OmpTargetTeamsDistributeSimdDirective => {},
            EntityKind::BitCastExpr => {},
            EntityKind::OmpMasterTaskLoopDirective => {},
            EntityKind::OmpParallelMasterTaskLoopDirective => {},
            EntityKind::OmpMasterTaskLoopSimdDirective => {},
            EntityKind::OmpParallelMasterTaskLoopSimdDirective => {},
            EntityKind::OmpParallelMasterDirective => {},
            EntityKind::TranslationUnit => {},
            EntityKind::UnexposedAttr => {},
            EntityKind::IbActionAttr => {},
            EntityKind::IbOutletAttr => {},
            EntityKind::IbOutletCollectionAttr => {},
            EntityKind::FinalAttr => {},
            EntityKind::OverrideAttr => {},
            EntityKind::AnnotateAttr => {},
            EntityKind::AsmLabelAttr => {},
            EntityKind::PackedAttr => {},
            EntityKind::PureAttr => {},
            EntityKind::ConstAttr => {},
            EntityKind::NoDuplicateAttr => {},
            EntityKind::CudaConstantAttr => {},
            EntityKind::CudaDeviceAttr => {},
            EntityKind::CudaGlobalAttr => {},
            EntityKind::CudaHostAttr => {},
            EntityKind::CudaSharedAttr => {},
            EntityKind::VisibilityAttr => {},
            EntityKind::DllExport => {},
            EntityKind::DllImport => {},
            EntityKind::NSReturnsRetained => {},
            EntityKind::NSReturnsNotRetained => {},
            EntityKind::NSReturnsAutoreleased => {},
            EntityKind::NSConsumesSelf => {},
            EntityKind::NSConsumed => {},
            EntityKind::ObjCException => {},
            EntityKind::ObjCNSObject => {},
            EntityKind::ObjCIndependentClass => {},
            EntityKind::ObjCPreciseLifetime => {},
            EntityKind::ObjCReturnsInnerPointer => {},
            EntityKind::ObjCRequiresSuper => {},
            EntityKind::ObjCRootClass => {},
            EntityKind::ObjCSubclassingRestricted => {},
            EntityKind::ObjCExplicitProtocolImpl => {},
            EntityKind::ObjCDesignatedInitializer => {},
            EntityKind::ObjCRuntimeVisible => {},
            EntityKind::ObjCBoxable => {},
            EntityKind::FlagEnum => {},
            EntityKind::ConvergentAttr => {},
            EntityKind::WarnUnusedAttr => {},
            EntityKind::WarnUnusedResultAttr => {},
            EntityKind::AlignedAttr => {},
            EntityKind::PreprocessingDirective => {},
            EntityKind::MacroDefinition => {},
            EntityKind::MacroExpansion => {},
            EntityKind::InclusionDirective => {},
            EntityKind::ModuleImportDecl => {},
            EntityKind::TypeAliasTemplateDecl => {},
            EntityKind::StaticAssert => {},
            EntityKind::FriendDecl => {},
            EntityKind::OverloadCandidate => {},
        }
    }

    /// No two variants share a value; every variant's value is recognised by `from_raw`.
    pub proof fn lemma_code(self, other: Self)
        ensures
            self.code() == other.code() ==> self == other,
            Self::is_code(self.code()),
    {
        self.lemma_decode();
        other.lemma_decode();
    }
}

/// Indicates how a entity visitation should proceed.
#[derive(Copy, Clone, Debug, PartialEq, Eq, Hash, Structural)]
pub enum EntityVisitResult {
    /// Do not continue visiting entities.
    Break,
    /// Continue visiting sibling entities iteratively, skipping child entities.
    Continue,
    /// Continue visiting sibling and child entities recursively, children first.
    Recurse,
}

impl EntityVisitResult {
    /// The value libclang uses for this visit result.
    pub open spec fn code(self) -> int {
        match self {
            EntityVisitResult::Break => 0,
            EntityVisitResult::Continue => 1,
            EntityVisitResult::Recurse => 2,
        }
    }

    /// Returns the value libclang uses for this visit result.
    pub fn to_raw(self) -> (raw: i32)
        ensures
            raw == self.code(),
    {
        match self {
            EntityVisitResult::Break => 0,
            EntityVisitResult::Continue => 1,
            EntityVisitResult::Recurse => 2,
        }
    }

    spec fn decode(raw: int) -> Option<Self> {
        if raw == 0 {
            Some(EntityVisitResult::Break)
        } else if raw == 1 {
            Some(EntityVisitResult::Continue)
        } else if raw == 2 {
            Some(EntityVisitResult::Recurse)
        } else {
            None
        }
    }

    proof fn lemma_decode(self)
        ensures
            Self::decode(self.code()) == Some(self),
    {
        match self {
            EntityVisitResult::Break => {},
            EntityVisitResult::Continue => {},
            EntityVisitResult::Recurse => {},
        }
    }

    /// No two variants share a value.
    pub proof fn lemma_code(self, other: Self)
        ensures
            self.code() == other.code() ==> self == other,
    {
        self.lemma_decode();
        other.lemma_decode();
    }
}

/// Indicates the exception specification of a function.
#[derive(Copy, Clone, Debug, PartialEq, Eq, Hash, Structural)]
pub enum ExceptionSpecification {
    /// The function has a basic `noexcept` specification.
    BasicNoexcept,
    /// The function has a computed `noexcept` specification.
    ComputedNoexcept,
    /// The function has a `throw(T1, T2)` specification.
    Dynamic,
    /// The function has a `throw(...)` specification.
    DynamicAny,
    /// The function has a `throw()` specification.
    DynamicNone,
    /// The function has an exception specification that has not yet been evaluated.
    Unevaluated,
    /// The function has an exception specification that has not yet been instantiated.
    Uninstantiated,
    /// The function has an exception specification that has not yet been parsed.
    Unparsed,
    /// The function has a `__declspec(nothrow)` specification.
    ///
    /// Only produced by `libclang` 9.0 and later.
    NoThrow,
}

impl ExceptionSpecification {
    /// The value libclang uses for this exception specification.
    pub open spec fn code(self) -> int {
        match self {
            ExceptionSpecification::BasicNoexcept => 4,
            ExceptionSpecification::ComputedNoexcept => 5,
            ExceptionSpecification::Dynamic => 2,
            ExceptionSpecification::DynamicAny => 3,
            ExceptionSpecification::DynamicNone => 1,
            ExceptionSpecification::Unevaluated => 6,
            ExceptionSpecification::Uninstantiated => 7,
            ExceptionSpecification::Unparsed => 8,
            ExceptionSpecification::NoThrow => 9,
        }
    }

    /// Returns the value libclang uses for this exception specification.
    pub fn to_raw(self) -> (raw: i32)
        ensures
            raw == self.code(),
    {
        match self {
            ExceptionSpecification::BasicNoexcept => 4,
            ExceptionSpecification::ComputedNoexcept => 5,
            ExceptionSpecification::Dynamic => 2,
            ExceptionSpecification::DynamicAny => 3,
            ExceptionSpecification::DynamicNone => 1,
            ExceptionSpecification::Unevaluated => 6,
            ExceptionSpecification::Uninstantiated => 7,
            ExceptionSpecification::Unparsed => 8,
            ExceptionSpecification::NoThrow => 9,
        }
    }

    /// Whether `raw` is one of the values that `from_raw` recognises.
    pub open spec fn is_code(raw: int) -> bool {
        1 <= raw <= 9
    }

    /// Returns the exception specification that libclang denotes by `raw`, if `raw` is a recognised value.
    pub fn from_raw(raw: i32) -> (result: Option<Self>)
        ensures
            result is Some <==> Self::is_code(raw as int),
            result matches Some(k) ==> k.code() == raw,
    {
        match raw {
            1 => Some(ExceptionSpecification::DynamicNone),
            2 => Some(ExceptionSpecification::Dynamic),
            3 => Some(ExceptionSpecification::DynamicAny),
            4 => Some(ExceptionSpecification::BasicNoexcept),
            5 => Some(ExceptionSpecification::ComputedNoexcept),
            6 => Some(ExceptionSpecification::Unevaluated),
            7 => Some(ExceptionSpecification::Uninstantiated),
            8 => Some(ExceptionSpecification::Unparsed),
            9 => Some(ExceptionSpecification::NoThrow),
            _ => None,
        }
    }

    spec fn decode(raw: int) -> Option<Self> {
        if raw == 4 {
            Some(ExceptionSpecification::BasicNoexcept)
        } else if raw == 5 {
            Some(ExceptionSpecification::ComputedNoexcept)
        } else if raw == 2 {
            Some(ExceptionSpecification::Dynamic)
        } else if raw == 3 {
            Some(ExceptionSpecification::DynamicAny)
        } else if raw == 1 {
            Some(ExceptionSpecification::DynamicNone)
        } else if raw == 6 {
            Some(ExceptionSpecification::Unevaluated)
        } else if raw == 7 {
            Some(ExceptionSpecification::Uninstantiated)
        } else if raw == 8 {
            Some(ExceptionSpecification::Unparsed)
        } else if raw == 9 {
            Some(ExceptionSpecification::NoThrow)
        } else {
            None
        }
    }

    proof fn lemma_decode(self)
        ensures
            Self::decode(self.code()) == Some(self),
    {
        match self {
            ExceptionSpecification::BasicNoexcept => {},
            ExceptionSpecification::ComputedNoexcept => {},
            ExceptionSpecification::Dynamic => {},
            ExceptionSpecification::DynamicAny => {},
            ExceptionSpecification::DynamicNone => {},
            ExceptionSpecification::Unevaluated => {},
            ExceptionSpecification::Uninstantiated => {},
            ExceptionSpecification::Unparsed => {},
            ExceptionSpecification::NoThrow => {},
        }
    }

    /// No two variants share a value; every variant's value is recognised by `from_raw`.
    pub proof fn lemma_code(self, other: Self)
        ensures
            self.code() == other.code() ==> self == other,
            Self::is_code(self.code()),
    {
        self.lemma_decode();
        other.lemma_decode();
    }
}

/// Indicates the language used by a declaration.
#[derive(Copy, Clone, Debug, PartialEq, Eq, Hash, Structural)]
pub enum Language {
    /// The declaration uses the C programming language.
    C,
    /// The declaration uses the C++ programming language.
    Cpp,
    /// The declaration uses the Objective-C programming language.
    ObjectiveC,
    /// The declaration uses the Swift programming language.
    ///
    /// Only produced by `libclang` 5.0 and later.
    Swift,
}

impl Language {
    /// The value libclang uses for this language.
    pub open spec fn code(self) -> int {
        match self {
            Language::C => 1,
            Language::Cpp => 3,
            Language::ObjectiveC => 2,
            Language::Swift => 4,
        }
    }

    /// Returns the value libclang uses for this language.
    pub fn to_raw(self) -> (raw: i32)
        ensures
            raw == self.code(),
    {
        match self {
            Language::C => 1,
            Language::Cpp => 3,
            Language::ObjectiveC => 2,
            Language::Swift => 4,
        }
    }

    /// Whether `raw` is one of the values that `from_raw` recognises.
    pub open spec fn is_code(raw: int) -> bool {
        1 <= raw <= 4
    }

    /// Returns the language that libclang denotes by `raw`, if `raw` is a recognised value.
    pub fn from_raw(raw: i32) -> (result: Option<Self>)
        ensures
            result is Some <==> Self::is_code(raw as int),
            result matches Some(k) ==> k.code() == raw,
    {
        match raw {
            1 => Some(Language::C),
            2 => Some(Language::ObjectiveC),
            3 => Some(Language::Cpp),
            4 => Some(Language::Swift),
            _ => None,
        }
    }

    spec fn decode(raw: int) -> Option<Self> {
        if raw == 1 {
            Some(Language::C)
        } else if raw == 3 {
            Some(Language::Cpp)
        } else if raw == 2 {
            Some(Language::ObjectiveC)
        } else if raw == 4 {
            Some(Language::Swift)
        } else {
            None
        }
    }

    proof fn lemma_decode(self)
        ensures
            Self::decode(self.code()) == Some(self),
    {
        match self {
            Language::C => {},
            Language::Cpp => {},
            Language::ObjectiveC => {},
            Language::Swift => {},
        }
    }

    /// No two variants share a value; every variant's value is recognised by `from_raw`.
    pub proof fn lemma_code(self, other: Self)
        ensures
            self.code() == other.code() ==> self == other,
            Self::is_code(self.code()),
    {
        self.lemma_decode();
        other.lemma_decode();
    }
}

/// Indicates the linkage of an AST entity.
#[derive(Copy, Clone, Debug, PartialEq, Eq, Hash, Structural)]
pub enum Linkage {
    /// The AST entity has automatic storage (e.g., variables or parameters).
    Automatic,
    /// The AST entity is a static variable or static function.
    Internal,
    /// The AST entity has external linkage.
    External,
    /// The AST entity has external linkage and lives in a C++ anonymous namespace.
    UniqueExternal,
}

impl Linkage {
    /// The value libclang uses for this linkage.
    pub open spec fn code(self) -> int {
        match self {
            Linkage::Automatic => 1,
            Linkage::Internal => 2,
            Linkage::External => 4,
            Linkage::UniqueExternal => 3,
        }
    }

    /// Returns the value libclang uses for this linkage.
    pub fn to_raw(self) -> (raw: i32)
        ensures
            raw == self.code(),
    {
        match self {
            Linkage::Automatic => 1,
            Linkage::Internal => 2,
            Linkage::External => 4,
            Linkage::UniqueExternal => 3,
        }
    }

    /// Whether `raw` is one of the values that `from_raw` recognises.
    pub open spec fn is_code(raw: int) -> bool {
        1 <= raw <= 4
    }

    /// Returns the linkage that libclang denotes by `raw`, if `raw` is a recognised value.
    pub fn from_raw(raw: i32) -> (result: Option<Self>)
        ensures
            result is Some <==> Self::is_code(raw as int),
            result matches Some(k) ==> k.code() == raw,
    {
        match raw {
            1 => Some(Linkage::Automatic),
            2 => Some(Linkage::Internal),
            3 => Some(Linkage::UniqueExternal),
            4 => Some(Linkage::External),
            _ => None,
        }
    }

    spec fn decode(raw: int) -> Option<Self> {
        if raw == 1 {
            Some(Linkage::Automatic)
        } else if raw == 2 {
            Some(Linkage::Internal)
        } else if raw == 4 {
            Some(Linkage::External)
        } else if raw == 3 {
            Some(Linkage::UniqueExternal)
        } else {
            None
        }
    }

    proof fn lemma_decode(self)
        ensures
            Self::decode(self.code()) == Some(self),
    {
        match self {
            Linkage::Automatic => {},
            Linkage::Internal => {},
            Linkage::External => {},
            Linkage::UniqueExternal => {},
        }
    }

    /// No two variants share a value; every variant's value is recognised by `from_raw`.
    pub proof fn lemma_code(self, other: Self)
        ensures
            self.code() == other.code() ==> self == other,
            Self::is_code(self.code()),
    {
        self.lemma_decode();
        other.lemma_decode();
    }
}

/// Indicates the usage category of a quantity of memory.
#[derive(Copy, Clone, Debug, PartialEq, Eq, Hash, Structural)]
pub enum MemoryUsage {
    /// Expressions, declarations, and types.
    Ast,
    /// Various tables used by the AST.
    AstSideTables,
    /// Memory allocated with `malloc` for external AST sources.
    ExternalAstSourceMalloc,
    /// Memory allocated with `mmap` for external AST sources.
    ExternalAstSourceMMap,
    /// Cached global code completion results.
    GlobalCodeCompletionResults,
    /// Identifiers.
    Identifiers,
    /// The preprocessing record.
    PreprocessingRecord,
    /// Memory allocated with `malloc` for the preprocessor.
    Preprocessor,
    /// Header search tables.
    PreprocessorHeaderSearch,
    /// Selectors.
    Selectors,
    /// The content cache used by the source manager.
    SourceManagerContentCache,
    /// Data structures used by the source manager.
    SourceManagerDataStructures,
    /// Memory allocated with `malloc` for the source manager.
    SourceManagerMalloc,
    /// Memory allocated with `mmap` for the source manager.
    SourceManagerMMap,
}

impl MemoryUsage {
    /// The value libclang uses for this memory usage category.
    pub open spec fn code(self) -> int {
        match self {
            MemoryUsage::Ast => 1,
            MemoryUsage::AstSideTables => 6,
            MemoryUsage::ExternalAstSourceMalloc => 9,
            MemoryUsage::ExternalAstSourceMMap => 10,
            MemoryUsage::GlobalCodeCompletionResults => 4,
            MemoryUsage::Identifiers => 2,
            MemoryUsage::PreprocessingRecord => 12,
            MemoryUsage::Preprocessor => 11,
            MemoryUsage::PreprocessorHeaderSearch => 14,
            MemoryUsage::Selectors => 3,
            MemoryUsage::SourceManagerContentCache => 5,
            MemoryUsage::SourceManagerDataStructures => 13,
            MemoryUsage::SourceManagerMalloc => 7,
            MemoryUsage::SourceManagerMMap => 8,
        }
    }

    /// Returns the value libclang uses for this memory usage category.
    pub fn to_raw(self) -> (raw: i32)
        ensures
            raw == self.code(),
    {
        match self {
            MemoryUsage::Ast => 1,
            MemoryUsage::AstSideTables => 6,
            MemoryUsage::ExternalAstSourceMalloc => 9,
            MemoryUsage::ExternalAstSourceMMap => 10,
            MemoryUsage::GlobalCodeCompletionResults => 4,
            MemoryUsage::Identifiers => 2,
            MemoryUsage::PreprocessingRecord => 12,
            MemoryUsage::Preprocessor => 11,
            MemoryUsage::PreprocessorHeaderSearch => 14,
            MemoryUsage::Selectors => 3,
            MemoryUsage::SourceManagerContentCache => 5,
            MemoryUsage::SourceManagerDataStructures => 13,
            MemoryUsage::SourceManagerMalloc => 7,
            MemoryUsage::SourceManagerMMap => 8,
        }
    }

    /// Whether `raw` is one of the values that `from_raw` recognises.
    pub open spec fn is_code(raw: int) -> bool {
        1 <= raw <= 14
    }

    /// Returns the memory usage category that libclang denotes by `raw`, if `raw` is a recognised value.
    pub fn from_raw(raw: i32) -> (result: Option<Self>)
        ensures
            result is Some <==> Self::is_code(raw as int),
            result matches Some(k) ==> k.code() == raw,
    {
        match raw {
            1 => Some(MemoryUsage::Ast),
            2 => Some(MemoryUsage::Identifiers),
            3 => Some(MemoryUsage::Selectors),
            4 => Some(MemoryUsage::GlobalCodeCompletionResults),
            5 => Some(MemoryUsage::SourceManagerContentCache),
            6 => Some(MemoryUsage::AstSideTables),
            7 => Some(MemoryUsage::SourceManagerMalloc),
            8 => Some(MemoryUsage::SourceManagerMMap),
            9 => Some(MemoryUsage::ExternalAstSourceMalloc),
            10 => Some(MemoryUsage::ExternalAstSourceMMap),
            11 => Some(MemoryUsage::Preprocessor),
            12 => Some(MemoryUsage::PreprocessingRecord),
            13 => Some(MemoryUsage::SourceManagerDataStructures),
            14 => Some(MemoryUsage::PreprocessorHeaderSearch),
            _ => None,
        }
    }

    spec fn decode(raw: int) -> Option<Self> {
        if raw == 1 {
            Some(MemoryUsage::Ast)
        } else if raw == 6 {
            Some(MemoryUsage::AstSideTables)
        } else if raw == 9 {
            Some(MemoryUsage::ExternalAstSourceMalloc)
        } else if raw == 10 {
            Some(MemoryUsage::ExternalAstSourceMMap)
        } else if raw == 4 {
            Some(MemoryUsage::GlobalCodeCompletionResults)
        } else if raw == 2 {
            Some(MemoryUsage::Identifiers)
        } else if raw == 12 {
            Some(MemoryUsage::PreprocessingRecord)
        } else if raw == 11 {
            Some(MemoryUsage::Preprocessor)
        } else if raw == 14 {
            Some(MemoryUsage::PreprocessorHeaderSearch)
        } else if raw == 3 {
            Some(MemoryUsage::Selectors)
        } else if raw == 5 {
            Some(MemoryUsage::SourceManagerContentCache)
        } else if raw == 13 {
            Some(MemoryUsage::SourceManagerDataStructures)
        } else if raw == 7 {
            Some(MemoryUsage::SourceManagerMalloc)
        } else if raw == 8 {
            Some(MemoryUsage::SourceManagerMMap)
        } else {
            None
        }
    }

    proof fn lemma_decode(self)
        ensures
            Self::decode(self.code()) == Some(self),
    {
        match self {
            MemoryUsage::Ast => {},
            MemoryUsage::AstSideTables => {},
            MemoryUsage::ExternalAstSourceMalloc => {},
            MemoryUsage::ExternalAstSourceMMap => {},
            MemoryUsage::GlobalCodeCompletionResults => {},
            MemoryUsage::Identifiers => {},
            MemoryUsage::PreprocessingRecord => {},
            MemoryUsage::Preprocessor => {},
            MemoryUsage::PreprocessorHeaderSearch => {},
            MemoryUsage::Selectors => {},
            MemoryUsage::SourceManagerContentCache => {},
            MemoryUsage::SourceManagerDataStructures => {},
            MemoryUsage::SourceManagerMalloc => {},
            MemoryUsage::SourceManagerMMap => {},
        }
    }

    /// No two variants share a value; every variant's value is recognised by `from_raw`.
    pub proof fn lemma_code(self, other: Self)
        ensures
            self.code() == other.code() ==> self == other,
            Self::is_code(self.code()),
    {
        self.lemma_decode();
        other.lemma_decode();
    }
}

/// Indicates the nullability of a pointer type.
#[derive(Copy, Clone, Debug, PartialEq, Eq, Hash, Structural)]
pub enum Nullability {
    /// Values of this type can never be null.
    NonNull,
    /// Values of this type can be null.
    Nullable,
    /// Whether values of this type can be null is (explicitly) unspecified.
    Unspecified,
}

impl Nullability {
    /// The value libclang uses for this nullability.
    pub open spec fn code(self) -> int {
        match self {
            Nullability::NonNull => 0,
            Nullability::Nullable => 1,
            Nullability::Unspecified => 2,
        }
    }

    /// Returns the value libclang uses for this nullability.
    pub fn to_raw(self) -> (raw: i32)
        ensures
            raw == self.code(),
    {
        match self {
            Nullability::NonNull => 0,
            Nullability::Nullable => 1,
            Nullability::Unspecified => 2,
        }
    }

    /// Whether `raw` is one of the values that `from_raw` recognises.
    pub open spec fn is_code(raw: int) -> bool {
        0 <= raw <= 2
    }

    /// Returns the nullability that libclang denotes by `raw`, if `raw` is a recognised value.
    pub fn from_raw(raw: i32) -> (result: Option<Self>)
        ensures
            result is Some <==> Self::is_code(raw as int),
            result matches Some(k) ==> k.code() == raw,
    {
        match raw {
            0 => Some(Nullability::NonNull),
            1 => Some(Nullability::Nullable),
            2 => Some(Nullability::Unspecified),
            _ => None,
        }
    }

    spec fn decode(raw: int) -> Option<Self> {
        if raw == 0 {
            Some(Nullability::NonNull)
        } else if raw == 1 {
            Some(Nullability::Nullable)
        } else if raw == 2 {
            Some(Nullability::Unspecified)
        } else {
            None
        }
    }

    proof fn lemma_decode(self)
        ensures
            Self::decode(self.code()) == Some(self),
    {
        match self {
            Nullability::NonNull => {},
            Nullability::Nullable => {},
            Nullability::Unspecified => {},
        }
    }

    /// No two variants share a value; every variant's value is recognised by `from_raw`.
    pub proof fn lemma_code(self, other: Self)
        ensures
            self.code() == other.code() ==> self == other,
            Self::is_code(self.code()),
    {
        self.lemma_decode();
        other.lemma_decode();
    }
}

/// Flags for the printing policy.
#[derive(Copy, Clone, Debug, PartialEq, Eq, Hash, Structural)]
pub enum PrintingPolicyFlag {
    /// Whether to suppress printing specifiers for a given type or declaration.
    SuppressSpecifiers,
    /// Whether to suppress printing the tag keyword.
    SuppressTagKeyword,
    /// Whether to include the body of a tag definition.
    IncludeTagDefinition,
    /// Whether to suppress printing of scope specifiers.
    SuppressScope,
    /// Whether to suppress printing the parts of scope specifiers that don't need to be written.
    SuppressUnwrittenScope,
    /// Whether to suppress printing of variable initializers.
    SuppressInitializers,
    /// Whether to print the size of constant array expressions as written.
    PrintConstantArraySizeAsWritten,
    /// Whether to print the location of anonymous tags.
    PrintAnonymousTagLocations,
    /// Whether to suppress printing the __strong lifetime qualifier in ARC.
    SuppressStrongLifetime,
    /// Whether to suppress printing lifetime qualifiers in ARC.
    SuppressLifetimeQualifiers,
    /// Whether to suppress printing template arguments in names of C++ constructors.
    SuppressTemplateArgsInCXXConstructors,
    /// Whether to print 'bool' rather than '_Bool'.
    UseBool,
    /// Whether to print 'restrict' rather than '__restrict'
    UseRestrict,
    /// Whether to print 'alignof' rather than '__alignof'
    UseAlignof,
    /// Whether to print '_Alignof' rather than '__alignof'
    UseUnderscoreAlignof,
    /// Whether to print '(void)' rather then '()' for a function prototype with zero parameters.
    UseVoidForZeroParams,
    /// Whether to print terse output.
    UseTerseOutput,
    /// Whether to do certain refinements needed for producing a proper declaration tag.
    PolishForDeclaration,
    /// Whether to print 'half' rather than '__fp16'
    UseHalf,
    /// Whether to print the built-in wchar_t type as '__wchar_t'
    UseMsWchar,
    /// Whether to include newlines after statements.
    IncludeNewlines,
    /// Whether to use whitespace and punctuation like MSVC does.
    UseMsvcFormatting,
    /// Whether to print constant expressions as written.
    PrintConstantsAsWritten,
    /// Whether to suppress printing the implicit 'self' or 'this' expressions.
    SuppressImplicitBase,
    /// Whether to print the fully qualified name of function declarations.
    PrintFullyQualifiedName,
}

impl PrintingPolicyFlag {
    /// The value libclang uses for this printing policy property.
    pub open spec fn code(self) -> int {
        match self {
            PrintingPolicyFlag::SuppressSpecifiers => 1,
            PrintingPolicyFlag::SuppressTagKeyword => 2,
            PrintingPolicyFlag::IncludeTagDefinition => 3,
            PrintingPolicyFlag::SuppressScope => 4,
            PrintingPolicyFlag::SuppressUnwrittenScope => 5,
            PrintingPolicyFlag::SuppressInitializers => 6,
            PrintingPolicyFlag::PrintConstantArraySizeAsWritten => 7,
            PrintingPolicyFlag::PrintAnonymousTagLocations => 8,
            PrintingPolicyFlag::SuppressStrongLifetime => 9,
            PrintingPolicyFlag::SuppressLifetimeQualifiers => 10,
            PrintingPolicyFlag::SuppressTemplateArgsInCXXConstructors => 11,
            PrintingPolicyFlag::UseBool => 12,
            PrintingPolicyFlag::UseRestrict => 13,
            PrintingPolicyFlag::UseAlignof => 14,
            PrintingPolicyFlag::UseUnderscoreAlignof => 15,
            PrintingPolicyFlag::UseVoidForZeroParams => 16,
            PrintingPolicyFlag::UseTerseOutput => 17,
            PrintingPolicyFlag::PolishForDeclaration => 18,
            PrintingPolicyFlag::UseHalf => 19,
            PrintingPolicyFlag::UseMsWchar => 20,
            PrintingPolicyFlag::IncludeNewlines => 21,
            PrintingPolicyFlag::UseMsvcFormatting => 22,
            PrintingPolicyFlag::PrintConstantsAsWritten => 23,
            PrintingPolicyFlag::SuppressImplicitBase => 24,
            PrintingPolicyFlag::PrintFullyQualifiedName => 25,
        }
    }

    /// Returns the value libclang uses for this printing policy property.
    pub fn to_raw(self) -> (raw: i32)
        ensures
            raw == self.code(),
    {
        match self {
            PrintingPolicyFlag::SuppressSpecifiers => 1,
            PrintingPolicyFlag::SuppressTagKeyword => 2,
            PrintingPolicyFlag::IncludeTagDefinition => 3,
            PrintingPolicyFlag::SuppressScope => 4,
            PrintingPolicyFlag::SuppressUnwrittenScope => 5,
            PrintingPolicyFlag::SuppressInitializers => 6,
            PrintingPolicyFlag::PrintConstantArraySizeAsWritten => 7,
            PrintingPolicyFlag::PrintAnonymousTagLocations => 8,
            PrintingPolicyFlag::SuppressStrongLifetime => 9,
            PrintingPolicyFlag::SuppressLifetimeQualifiers => 10,
            PrintingPolicyFlag::SuppressTemplateArgsInCXXConstructors => 11,
            PrintingPolicyFlag::UseBool => 12,
            PrintingPolicyFlag::UseRestrict => 13,
            PrintingPolicyFlag::UseAlignof => 14,
            PrintingPolicyFlag::UseUnderscoreAlignof => 15,
            PrintingPolicyFlag::UseVoidForZeroParams => 16,
            PrintingPolicyFlag::UseTerseOutput => 17,
            PrintingPolicyFlag::PolishForDeclaration => 18,
            PrintingPolicyFlag::UseHalf => 19,
            PrintingPolicyFlag::UseMsWchar => 20,
            PrintingPolicyFlag::IncludeNewlines => 21,
            PrintingPolicyFlag::UseMsvcFormatting => 22,
            PrintingPolicyFlag::PrintConstantsAsWritten => 23,
            PrintingPolicyFlag::SuppressImplicitBase => 24,
            PrintingPolicyFlag::PrintFullyQualifiedName => 25,
        }
    }

    spec fn decode(raw: int) -> Option<Self> {
        if raw == 1 {
            Some(PrintingPolicyFlag::SuppressSpecifiers)
        } else if raw == 2 {
            Some(PrintingPolicyFlag::SuppressTagKeyword)
        } else if raw == 3 {
            Some(PrintingPolicyFlag::IncludeTagDefinition)
        } else if raw == 4 {
            Some(PrintingPolicyFlag::SuppressScope)
        } else if raw == 5 {
            Some(PrintingPolicyFlag::SuppressUnwrittenScope)
        } else if raw == 6 {
            Some(PrintingPolicyFlag::SuppressInitializers)
        } else if raw == 7 {
            Some(PrintingPolicyFlag::PrintConstantArraySizeAsWritten)
        } else if raw == 8 {
            Some(PrintingPolicyFlag::PrintAnonymousTagLocations)
        } else if raw == 9 {
            Some(PrintingPolicyFlag::SuppressStrongLifetime)
        } else if raw == 10 {
            Some(PrintingPolicyFlag::SuppressLifetimeQualifiers)
        } else if raw == 11 {
            Some(PrintingPolicyFlag::SuppressTemplateArgsInCXXConstructors)
        } else if raw == 12 {
            Some(PrintingPolicyFlag::UseBool)
        } else if raw == 13 {
            Some(PrintingPolicyFlag::UseRestrict)
        } else if raw == 14 {
            Some(PrintingPolicyFlag::UseAlignof)
        } else if raw == 15 {
            Some(PrintingPolicyFlag::UseUnderscoreAlignof)
        } else if raw == 16 {
            Some(PrintingPolicyFlag::UseVoidForZeroParams)
        } else if raw == 17 {
            Some(PrintingPolicyFlag::UseTerseOutput)
        } else if raw == 18 {
            Some(PrintingPolicyFlag::PolishForDeclaration)
        } else if raw == 19 {
            Some(PrintingPolicyFlag::UseHalf)
        } else if raw == 20 {
            Some(PrintingPolicyFlag::UseMsWchar)
        } else if raw == 21 {
            Some(PrintingPolicyFlag::IncludeNewlines)
        } else if raw == 22 {
            Some(PrintingPolicyFlag::UseMsvcFormatting)
        } else if raw == 23 {
            Some(PrintingPolicyFlag::PrintConstantsAsWritten)
        } else if raw == 24 {
            Some(PrintingPolicyFlag::SuppressImplicitBase)
        } else if raw == 25 {
            Some(PrintingPolicyFlag::PrintFullyQualifiedName)
        } else {
            None
        }
    }

    proof fn lemma_decode(self)
        ensures
            Self::decode(self.code()) == Some(self),
    {
        match self {
            PrintingPolicyFlag::SuppressSpecifiers => {},
            PrintingPolicyFlag::SuppressTagKeyword => {},
            PrintingPolicyFlag::IncludeTagDefinition => {},
            PrintingPolicyFlag::SuppressScope => {},
            PrintingPolicyFlag::SuppressUnwrittenScope => {},
            PrintingPolicyFlag::SuppressInitializers => {},
            PrintingPolicyFlag::PrintConstantArraySizeAsWritten => {},
            PrintingPolicyFlag::PrintAnonymousTagLocations => {},
            PrintingPolicyFlag::SuppressStrongLifetime => {},
            PrintingPolicyFlag::SuppressLifetimeQualifiers => {},
            PrintingPolicyFlag::SuppressTemplateArgsInCXXConstructors => {},
            PrintingPolicyFlag::UseBool => {},
            PrintingPolicyFlag::UseRestrict => {},
            PrintingPolicyFlag::UseAlignof => {},
            PrintingPolicyFlag::UseUnderscoreAlignof => {},
            PrintingPolicyFlag::UseVoidForZeroParams => {},
            PrintingPolicyFlag::UseTerseOutput => {},
            PrintingPolicyFlag::PolishForDeclaration => {},
            PrintingPolicyFlag::UseHalf => {},
            PrintingPolicyFlag::UseMsWchar => {},
            PrintingPolicyFlag::IncludeNewlines => {},
            PrintingPolicyFlag::UseMsvcFormatting => {},
            PrintingPolicyFlag::PrintConstantsAsWritten => {},
            PrintingPolicyFlag::SuppressImplicitBase => {},
            PrintingPolicyFlag::PrintFullyQualifiedName => {},
        }
    }

    /// No two variants share a value.
    pub proof fn lemma_code(self, other: Self)
        ensures
            self.code() == other.code() ==> self == other,
    {
        self.lemma_decode();
        other.lemma_decode();
    }
}

/// Indicates the ref qualifier of a C++ function or method type.
#[derive(Copy, Clone, Debug, PartialEq, Eq, Hash, Structural)]
pub enum RefQualifier {
    /// The function or method has an l-value ref qualifier (`&`).
    LValue,
    /// The function or method has an r-value ref qualifier (`&&`).
    RValue,
}

impl RefQualifier {
    /// The value libclang uses for this ref qualifier.
    pub open spec fn code(self) -> int {
        match self {
            RefQualifier::LValue => 1,
            RefQualifier::RValue => 2,
        }
    }

    /// Returns the value libclang uses for this ref qualifier.
    pub fn to_raw(self) -> (raw: i32)
        ensures
            raw == self.code(),
    {
        match self {
            RefQualifier::LValue => 1,
            RefQualifier::RValue => 2,
        }
    }

    /// Whether `raw` is one of the values that `from_raw` recognises.
    pub open spec fn is_code(raw: int) -> bool {
        1 <= raw <= 2
    }

    /// Returns the ref qualifier that libclang denotes by `raw`, if `raw` is a recognised value.
    pub fn from_raw(raw: i32) -> (result: Option<Self>)
        ensures
            result is Some <==> Self::is_code(raw as int),
            result matches Some(k) ==> k.code() == raw,
    {
        match raw {
            1 => Some(RefQualifier::LValue),
            2 => Some(RefQualifier::RValue),
            _ => None,
        }
    }

    spec fn decode(raw: int) -> Option<Self> {
        if raw == 1 {
            Some(RefQualifier::LValue)
        } else if raw == 2 {
            Some(RefQualifier::RValue)
        } else {
            None
        }
    }

    proof fn lemma_decode(self)
        ensures
            Self::decode(self.code()) == Some(self),
    {
        match self {
            RefQualifier::LValue => {},
            RefQualifier::RValue => {},
        }
    }

    /// No two variants share a value; every variant's value is recognised by `from_raw`.
    pub proof fn lemma_code(self, other: Self)
        ensures
            self.code() == other.code() ==> self == other,
            Self::is_code(self.code()),
    {
        self.lemma_decode();
        other.lemma_decode();
    }
}

/// Indicates the storage class of a declaration.
#[derive(Copy, Clone, Debug, PartialEq, Eq, Hash, Structural)]
pub enum StorageClass {
    /// The declaration does not specifiy a storage duration and therefore has an automatic storage
    /// duration.
    Unspecified,
    /// The declaration specifies an automatic storage duration.
    Auto,
    /// The declaration specifies an automatic storage duration and that it should be stored in a
    /// CPU register
    Register,
    /// The declaration specifies a static storage duration and internal linkage.
    Static,
    /// The declaration specifies a static storage duration and external linkage.
    Extern,
    /// The declaration specifies a static storage duration and external linkage but is not
    /// accessible outside the containing translation unit.
    PrivateExtern,
    /// The declaration specifies a storage duration related to an OpenCL work group.
    OpenClWorkGroupLocal,
}

impl StorageClass {
    /// The value libclang uses for this storage class.
    pub open spec fn code(self) -> int {
        match self {
            StorageClass::Unspecified => 1,
            StorageClass::Auto => 6,
            StorageClass::Register => 7,
            StorageClass::Static => 3,
            StorageClass::Extern => 2,
            StorageClass::PrivateExtern => 4,
            StorageClass::OpenClWorkGroupLocal => 5,
        }
    }

    /// Returns the value libclang uses for this storage class.
    pub fn to_raw(self) -> (raw: i32)
        ensures
            raw == self.code(),
    {
        match self {
            StorageClass::Unspecified => 1,
            StorageClass::Auto => 6,
            StorageClass::Register => 7,
            StorageClass::Static => 3,
            StorageClass::Extern => 2,
            StorageClass::PrivateExtern => 4,
            StorageClass::OpenClWorkGroupLocal => 5,
        }
    }

    /// Whether `raw` is one of the values that `from_raw` recognises.
    pub open spec fn is_code(raw: int) -> bool {
        1 <= raw <= 7
    }

    /// Returns the storage class that libclang denotes by `raw`, if `raw` is a recognised value.
    pub fn from_raw(raw: i32) -> (result: Option<Self>)
        ensures
            result is Some <==> Self::is_code(raw as int),
            result matches Some(k) ==> k.code() == raw,
    {
        match raw {
            1 => Some(StorageClass::Unspecified),
            2 => Some(StorageClass::Extern),
            3 => Some(StorageClass::Static),
            4 => Some(StorageClass::PrivateExtern),
            5 => Some(StorageClass::OpenClWorkGroupLocal),
            6 => Some(StorageClass::Auto),
            7 => Some(StorageClass::Register),
            _ => None,
        }
    }

    spec fn decode(raw: int) -> Option<Self> {
        if raw == 1 {
            Some(StorageClass::Unspecified)
        } else if raw == 6 {
            Some(StorageClass::Auto)
        } else if raw == 7 {
            Some(StorageClass::Register)
        } else if raw == 3 {
            Some(StorageClass::Static)
        } else if raw == 2 {
            Some(StorageClass::Extern)
        } else if raw == 4 {
            Some(StorageClass::PrivateExtern)
        } else if raw == 5 {
            Some(StorageClass::OpenClWorkGroupLocal)
        } else {
            None
        }
    }

    proof fn lemma_decode(self)
        ensures
            Self::decode(self.code()) == Some(self),
    {
        match self {
            StorageClass::Unspecified => {},
            StorageClass::Auto => {},
            StorageClass::Register => {},
            StorageClass::Static => {},
            StorageClass::Extern => {},
            StorageClass::PrivateExtern => {},
            StorageClass::OpenClWorkGroupLocal => {},
        }
    }

    /// No two variants share a value; every variant's value is recognised by `from_raw`.
    pub proof fn lemma_code(self, other: Self)
        ensures
            self.code() == other.code() ==> self == other,
            Self::is_code(self.code()),
    {
        self.lemma_decode();
        other.lemma_decode();
    }
}

/// Indicates the thread-local storage (TLS) kind of a declaration.
#[derive(Copy, Clone, Debug, PartialEq, Eq, Hash, Structural)]
pub enum TlsKind {
    /// The declaration uses dynamic TLS.
    Dynamic,
    /// The declaration uses static TLS.
    Static,
}

impl TlsKind {
    /// The value libclang uses for this thread-local storage kind.
    pub open spec fn code(self) -> int {
        match self {
            TlsKind::Dynamic => 1,
            TlsKind::Static => 2,
        }
    }

    /// Returns the value libclang uses for this thread-local storage kind.
    pub fn to_raw(self) -> (raw: i32)
        ensures
            raw == self.code(),
    {
        match self {
            TlsKind::Dynamic => 1,
            TlsKind::Static => 2,
        }
    }

    /// Whether `raw` is one of the values that `from_raw` recognises.
    pub open spec fn is_code(raw: int) -> bool {
        1 <= raw <= 2
    }

    /// Returns the thread-local storage kind that libclang denotes by `raw`, if `raw` is a recognised value.
    pub fn from_raw(raw: i32) -> (result: Option<Self>)
        ensures
            result is Some <==> Self::is_code(raw as int),
            result matches Some(k) ==> k.code() == raw,
    {
        match raw {
            1 => Some(TlsKind::Dynamic),
            2 => Some(TlsKind::Static),
            _ => None,
        }
    }

    spec fn decode(raw: int) -> Option<Self> {
        if raw == 1 {
            Some(TlsKind::Dynamic)
        } else if raw == 2 {
            Some(TlsKind::Static)
        } else {
            None
        }
    }

    proof fn lemma_decode(self)
        ensures
            Self::decode(self.code()) == Some(self),
    {
        match self {
            TlsKind::Dynamic => {},
            TlsKind::Static => {},
        }
    }

    /// No two variants share a value; every variant's value is recognised by `from_raw`.
    pub proof fn lemma_code(self, other: Self)
        ensures
            self.code() == other.code() ==> self == other,
            Self::is_code(self.code()),
    {
        self.lemma_decode();
        other.lemma_decode();
    }
}

/// Indicates the categorization of a type.
#[derive(Copy, Clone, Debug, PartialEq, Eq, Hash, Structural)]
pub enum TypeKind {
    /// A type whose specific kind is not exposed via this interface.
    Unexposed,
    /// `void`
    Void,
    /// `bool` (C++) or `_Bool` (C99)
    Bool,
    /// The `char` type when it is signed by default.
    CharS,
    /// The `char` type when it is unsigned by default.
    CharU,
    /// `signed char`
    SChar,
    /// `unsigned char`
    UChar,
    /// `wchar_t`
    WChar,
    /// `char16_t`
    Char16,
    /// `char32_t`
    Char32,
    /// `short`
    Short,
    /// `unsigned short`
    UShort,
    /// `int`
    Int,
    /// `unsigned int`
    UInt,
    /// `long`
    Long,
    /// `unsigned long`
    ULong,
    /// `long long`
    LongLong,
    /// `unsigned long long`
    ULongLong,
    /// `__int128_t`
    Int128,
    /// `__uint128_t`
    UInt128,
    /// A half-precision (16-bit) floating point type.
    ///
    /// Only produced by `libclang` 5.0 and later.
    Half,
    /// A half-precision (16-bit) floating point type.
    ///
    /// Only produced by `libclang` 6.0 and later.
    Float16,
    /// `short _Accum`
    ///
    /// Only produced by `libclang` 7.0 and later.
    ShortAccum,
    /// `_Accum`
    ///
    /// Only produced by `libclang` 7.0 and later.
    Accum,
    /// `long _Accum`
    ///
    /// Only produced by `libclang` 7.0 and later.
    LongAccum,
    /// `unsigned short _Accum`
    ///
    /// Only produced by `libclang` 7.0 and later.
    UShortAccum,
    /// `unsigned _Accum`
    ///
    /// Only produced by `libclang` 7.0 and later.
    UAccum,
    /// `unsigned long _Accum`
    ///
    /// Only produced by `libclang` 7.0 and later.
    ULongAccum,
    /// `float`
    Float,
    /// `double`
    Double,
    /// `long double`
    LongDouble,
    /// `nullptr_t` (C++11)
    Nullptr,
    /// A C99 complex type (e.g., `_Complex float`).
    Complex,
    /// An unknown dependent type.
    Dependent,
    /// The type of an unresolved overload set.
    Overload,
    /// `id` (Objective-C)
    ObjCId,
    /// `Class` (Objective-C)
    ObjCClass,
    /// `SEL` (Objective-C)
    ObjCSel,
    /// `__float128`
    ///
    /// Only produced by `libclang` 3.9 and later.
    Float128,
    /// An Objective-C interface type.
    ObjCInterface,
    /// An Objective-C pointer to object type.
    ObjCObjectPointer,
    /// A pointer type.
    Pointer,
    /// A block pointer type (e.g., `void (^)(int)`).
    BlockPointer,
    /// A pointer to a record member type.
    MemberPointer,
    /// An l-value reference (e.g. `int&`).
    LValueReference,
    /// An r-value reference (e.g. `int&&`).
    RValueReference,
    /// An enum type.
    Enum,
    /// A record type such as a struct or a class.
    Record,
    /// A typedef.
    Typedef,
    /// A function prototype with parameter type information (e.g., `void foo(int)`).
    FunctionPrototype,
    /// A function prototype without parameter type information (e.g., `void foo()`).
    FunctionNoPrototype,
    /// An array type with a specified size that is an integer constant expression.
    ConstantArray,
    /// An array type with a specified size that is a dependent value.
    DependentSizedArray,
    /// An array type without a specified size.
    IncompleteArray,
    /// An array type with a specified size that is not an integer constant expression.
    VariableArray,
    /// A GCC generic vector type.
    Vector,
    /// A C++11 `decltype(auto)` type.
    ///
    /// Only produced by `libclang` 3.8 and later.
    Auto,
    /// A type that was referred to using an elaborated type keyword (e.g., `struct S`).
    ///
    /// Only produced by `libclang` 3.9 and later.
    Elaborated,
    /// An OpenCL pipe type.
    ///
    /// Only produced by `libclang` 5.0 and later.
    Pipe,
    /// An OpenCL image type.
    ///
    /// Only produced by `libclang` 5.0 and later.
    OCLImage1dRO,
    /// An OpenCL image type.
    ///
    /// Only produced by `libclang` 5.0 and later.
    OCLImage1dArrayRO,
    /// An OpenCL image type.
    ///
    /// Only produced by `libclang` 5.0 and later.
    OCLImage1dBufferRO,
    /// An OpenCL image type.
    ///
    /// Only produced by `libclang` 5.0 and later.
    OCLImage2dRO,
    /// An OpenCL image type.
    ///
    /// Only produced by `libclang` 5.0 and later.
    OCLImage2dArrayRO,
    /// An OpenCL image type.
    ///
    /// Only produced by `libclang` 5.0 and later.
    OCLImage2dDepthRO,
    /// An OpenCL image type.
    ///
    /// Only produced by `libclang` 5.0 and later.
    OCLImage2dArrayDepthRO,
    /// An OpenCL image type.
    ///
    /// Only produced by `libclang` 5.0 and later.
    OCLImage2dMSAARO,
    /// An OpenCL image type.
    ///
    /// Only produced by `libclang` 5.0 and later.
    OCLImage2dArrayMSAARO,
    /// An OpenCL image type.
    ///
    /// Only produced by `libclang` 5.0 and later.
    OCLImage2dMSAADepthRO,
    /// An OpenCL image type.
    ///
    /// Only produced by `libclang` 5.0 and later.
    OCLImage2dArrayMSAADepthRO,
    /// An OpenCL image type.
    ///
    /// Only produced by `libclang` 5.0 and later.
    OCLImage3dRO,
    /// An OpenCL image type.
    ///
    /// Only produced by `libclang` 5.0 and later.
    OCLImage1dWO,
    /// An OpenCL image type.
    ///
    /// Only produced by `libclang` 5.0 and later.
    OCLImage1dArrayWO,
    /// An OpenCL image type.
    ///
    /// Only produced by `libclang` 5.0 and later.
    OCLImage1dBufferWO,
    /// An OpenCL image type.
    ///
    /// Only produced by `libclang` 5.0 and later.
    OCLImage2dWO,
    /// An OpenCL image type.
    ///
    /// Only produced by `libclang` 5.0 and later.
    OCLImage2dArrayWO,
    /// An OpenCL image type.
    ///
    /// Only produced by `libclang` 5.0 and later.
    OCLImage2dDepthWO,
    /// An OpenCL image type.
    ///
    /// Only produced by `libclang` 5.0 and later.
    OCLImage2dArrayDepthWO,
    /// An OpenCL image type.
    ///
    /// Only produced by `libclang` 5.0 and later.
    OCLImage2dMSAAWO,
    /// An OpenCL image type.
    ///
    /// Only produced by `libclang` 5.0 and later.
    OCLImage2dArrayMSAAWO,
    /// An OpenCL image type.
    ///
    /// Only produced by `libclang` 5.0 and later.
    OCLImage2dMSAADepthWO,
    /// An OpenCL image type.
    ///
    /// Only produced by `libclang` 5.0 and later.
    OCLImage2dArrayMSAADepthWO,
    /// An OpenCL image type.
    ///
    /// Only produced by `libclang` 5.0 and later.
    OCLImage3dWO,
    /// An OpenCL image type.
    ///
    /// Only produced by `libclang` 5.0 and later.
    OCLImage1dRW,
    /// An OpenCL image type.
    ///
    /// Only produced by `libclang` 5.0 and later.
    OCLImage1dArrayRW,
    /// An OpenCL image type.
    ///
    /// Only produced by `libclang` 5.0 and later.
    OCLImage1dBufferRW,
    /// An OpenCL image type.
    ///
    /// Only produced by `libclang` 5.0 and later.
    OCLImage2dRW,
    /// An OpenCL image type.
    ///
    /// Only produced by `libclang` 5.0 and later.
    OCLImage2dArrayRW,
    /// An OpenCL image type.
    ///
    /// Only produced by `libclang` 5.0 and later.
    OCLImage2dDepthRW,
    /// An OpenCL image type.
    ///
    /// Only produced by `libclang` 5.0 and later.
    OCLImage2dArrayDepthRW,
    /// An OpenCL image type.
    ///
    /// Only produced by `libclang` 5.0 and later.
    OCLImage2dMSAARW,
    /// An OpenCL image type.
    ///
    /// Only produced by `libclang` 5.0 and later.
    OCLImage2dArrayMSAARW,
    /// An OpenCL image type.
    ///
    /// Only produced by `libclang` 5.0 and later.
    OCLImage2dMSAADepthRW,
    /// An OpenCL image type.
    ///
    /// Only produced by `libclang` 5.0 and later.
    OCLImage2dArrayMSAADepthRW,
    /// An OpenCL image type.
    ///
    /// Only produced by `libclang` 5.0 and later.
    OCLImage3dRW,
    /// An OpenCL sampler type.
    ///
    /// Only produced by `libclang` 5.0 and later.
    OCLSampler,
    /// An OpenCL event type.
    ///
    /// Only produced by `libclang` 5.0 and later.
    OCLEvent,
    /// An OpenCL queue type.
    ///
    /// Only produced by `libclang` 5.0 and later.
    OCLQueue,
    /// An OpenCL reserve ID type.
    ///
    /// Only produced by `libclang` 5.0 and later.
    OCLReserveID,
    /// An Objective-C object type.
    ///
    /// Only produced by `libclang` 8.0 and later.
    ObjCObject,
    /// An Objective-C type param.
    ///
    /// Only produced by `libclang` 8.0 and later.
    ObjCTypeParam,
    /// An attributed type.
    ///
    /// Only produced by `libclang` 8.0 and later.
    Attributed,
    /// An Intel OpenCL extension type for the AVC VME media sampler in Intel graphics processors.
    ///
    /// Only produced by `libclang` 8.0 and later.
    OCLIntelSubgroupAVCMcePayload,
    /// An Intel OpenCL extension type for the AVC VME media sampler in Intel graphics processors.
    ///
    /// Only produced by `libclang` 8.0 and later.
    OCLIntelSubgroupAVCImePayload,
    /// An Intel OpenCL extension type for the AVC VME media sampler in Intel graphics processors.
    ///
    /// Only produced by `libclang` 8.0 and later.
    OCLIntelSubgroupAVCRefPayload,
    /// An Intel OpenCL extension type for the AVC VME media sampler in Intel graphics processors.
    ///
    /// Only produced by `libclang` 8.0 and later.
    OCLIntelSubgroupAVCSicPayload,
    /// An Intel OpenCL extension type for the AVC VME media sampler in Intel graphics processors.
    ///
    /// Only produced by `libclang` 8.0 and later.
    OCLIntelSubgroupAVCMceResult,
    /// An Intel OpenCL extension type for the AVC VME media sampler in Intel graphics processors.
    ///
    /// Only produced by `libclang` 8.0 and later.
    OCLIntelSubgroupAVCImeResult,
    /// An Intel OpenCL extension type for the AVC VME media sampler in Intel graphics processors.
    ///
    /// Only produced by `libclang` 8.0 and later.
    OCLIntelSubgroupAVCRefResult,
    /// An Intel OpenCL extension type for the AVC VME media sampler in Intel graphics processors.
    ///
    /// Only produced by `libclang` 8.0 and later.
    OCLIntelSubgroupAVCSicResult,
    /// An Intel OpenCL extension type for the AVC VME media sampler in Intel graphics processors.
    ///
    /// Only produced by `libclang` 8.0 and later.
    OCLIntelSubgroupAVCImeResultSingleRefStreamout,
    /// An Intel OpenCL extension type for the AVC VME media sampler in Intel graphics processors.
    ///
    /// Only produced by `libclang` 8.0 and later.
    OCLIntelSubgroupAVCImeResultDualRefStreamout,
    /// An Intel OpenCL extension type for the AVC VME media sampler in Intel graphics processors.
    ///
    /// Only produced by `libclang` 8.0 and later.
    OCLIntelSubgroupAVCImeSingleRefStreamin,
    /// An Intel OpenCL extension type for the AVC VME media sampler in Intel graphics processors.
    ///
    /// Only produced by `libclang` 8.0 and later.
    OCLIntelSubgroupAVCImeDualRefStreamin,
    /// Extended vector type, created using `attribute((ext_vector_type(n)))`.
    ///
    /// Only produced by `libclang` 9.0 and later.
    ExtVector,
}

impl TypeKind {
    /// The value libclang uses for this type kind.
    pub open spec fn code(self) -> int {
        match self {
            TypeKind::Unexposed => 1,
            TypeKind::Void => 2,
            TypeKind::Bool => 3,
            TypeKind::CharS => 13,
            TypeKind::CharU => 4,
            TypeKind::SChar => 14,
            TypeKind::UChar => 5,
            TypeKind::WChar => 15,
            TypeKind::Char16 => 6,
            TypeKind::Char32 => 7,
            TypeKind::Short => 16,
            TypeKind::UShort => 8,
            TypeKind::Int => 17,
            TypeKind::UInt => 9,
            TypeKind::Long => 18,
            TypeKind::ULong => 10,
            TypeKind::LongLong => 19,
            TypeKind::ULongLong => 11,
            TypeKind::Int128 => 20,
            TypeKind::UInt128 => 12,
            TypeKind::Half => 31,
            TypeKind::Float16 => 32,
            TypeKind::ShortAccum => 33,
            TypeKind::Accum => 34,
            TypeKind::LongAccum => 35,
            TypeKind::UShortAccum => 36,
            TypeKind::UAccum => 37,
            TypeKind::ULongAccum => 38,
            TypeKind::Float => 21,
            TypeKind::Double => 22,
            TypeKind::LongDouble => 23,
            TypeKind::Nullptr => 24,
            TypeKind::Complex => 100,
            TypeKind::Dependent => 26,
            TypeKind::Overload => 25,
            TypeKind::ObjCId => 27,
            TypeKind::ObjCClass => 28,
            TypeKind::ObjCSel => 29,
            TypeKind::Float128 => 30,
            TypeKind::ObjCInterface => 108,
            TypeKind::ObjCObjectPointer => 109,
            TypeKind::Pointer => 101,
            TypeKind::BlockPointer => 102,
            TypeKind::MemberPointer => 117,
            TypeKind::LValueReference => 103,
            TypeKind::RValueReference => 104,
            TypeKind::Enum => 106,
            TypeKind::Record => 105,
            TypeKind::Typedef => 107,
            TypeKind::FunctionPrototype => 111,
            TypeKind::FunctionNoPrototype => 110,
            TypeKind::ConstantArray => 112,
            TypeKind::DependentSizedArray => 116,
            TypeKind::IncompleteArray => 114,
            TypeKind::VariableArray => 115,
            TypeKind::Vector => 113,
            TypeKind::Auto => 118,
            TypeKind::Elaborated => 119,
            TypeKind::Pipe => 120,
            TypeKind::OCLImage1dRO => 121,
            TypeKind::OCLImage1dArrayRO => 122,
            TypeKind::OCLImage1dBufferRO => 123,
            TypeKind::OCLImage2dRO => 124,
            TypeKind::OCLImage2dArrayRO => 125,
            TypeKind::OCLImage2dDepthRO => 126,
            TypeKind::OCLImage2dArrayDepthRO => 127,
            TypeKind::OCLImage2dMSAARO => 128,
            TypeKind::OCLImage2dArrayMSAARO => 129,
            TypeKind::OCLImage2dMSAADepthRO => 130,
            TypeKind::OCLImage2dArrayMSAADepthRO => 131,
            TypeKind::OCLImage3dRO => 132,
            TypeKind::OCLImage1dWO => 133,
            TypeKind::OCLImage1dArrayWO => 134,
            TypeKind::OCLImage1dBufferWO => 135,
            TypeKind::OCLImage2dWO => 136,
            TypeKind::OCLImage2dArrayWO => 137,
            TypeKind::OCLImage2dDepthWO => 138,
            TypeKind::OCLImage2dArrayDepthWO => 139,
            TypeKind::OCLImage2dMSAAWO => 140,
            TypeKind::OCLImage2dArrayMSAAWO => 141,
            TypeKind::OCLImage2dMSAADepthWO => 142,
            TypeKind::OCLImage2dArrayMSAADepthWO => 143,
            TypeKind::OCLImage3dWO => 144,
            TypeKind::OCLImage1dRW => 145,
            TypeKind::OCLImage1dArrayRW => 146,
            TypeKind::OCLImage1dBufferRW => 147,
            TypeKind::OCLImage2dRW => 148,
            TypeKind::OCLImage2dArrayRW => 149,
            TypeKind::OCLImage2dDepthRW => 150,
            TypeKind::OCLImage2dArrayDepthRW => 151,
            TypeKind::OCLImage2dMSAARW => 152,
            TypeKind::OCLImage2dArrayMSAARW => 153,
            TypeKind::OCLImage2dMSAADepthRW => 154,
            TypeKind::OCLImage2dArrayMSAADepthRW => 155,
            TypeKind::OCLImage3dRW => 156,
            TypeKind::OCLSampler => 157,
            TypeKind::OCLEvent => 158,
            TypeKind::OCLQueue => 159,
            TypeKind::OCLReserveID => 160,
            TypeKind::ObjCObject => 161,
            TypeKind::ObjCTypeParam => 162,
            TypeKind::Attributed => 163,
            TypeKind::OCLIntelSubgroupAVCMcePayload => 164,
            TypeKind::OCLIntelSubgroupAVCImePayload => 165,
            TypeKind::OCLIntelSubgroupAVCRefPayload => 166,
            TypeKind::OCLIntelSubgroupAVCSicPayload => 167,
            TypeKind::OCLIntelSubgroupAVCMceResult => 168,
            TypeKind::OCLIntelSubgroupAVCImeResult => 169,
            TypeKind::OCLIntelSubgroupAVCRefResult => 170,
            TypeKind::OCLIntelSubgroupAVCSicResult => 171,
            TypeKind::OCLIntelSubgroupAVCImeResultSingleRefStreamout => 172,
            TypeKind::OCLIntelSubgroupAVCImeResultDualRefStreamout => 173,
            TypeKind::OCLIntelSubgroupAVCImeSingleRefStreamin => 174,
            TypeKind::OCLIntelSubgroupAVCImeDualRefStreamin => 175,
            TypeKind::ExtVector => 176,
        }
    }

    /// Returns the value libclang uses for this type kind.
    pub fn to_raw(self) -> (raw: i32)
        ensures
            raw == self.code(),
    {
        match self {
            TypeKind::Unexposed => 1,
            TypeKind::Void => 2,
            TypeKind::Bool => 3,
            TypeKind::CharS => 13,
            TypeKind::CharU => 4,
            TypeKind::SChar => 14,
            TypeKind::UChar => 5,
            TypeKind::WChar => 15,
            TypeKind::Char16 => 6,
            TypeKind::Char32 => 7,
            TypeKind::Short => 16,
            TypeKind::UShort => 8,
            TypeKind::Int => 17,
            TypeKind::UInt => 9,
            TypeKind::Long => 18,
            TypeKind::ULong => 10,
            TypeKind::LongLong => 19,
            TypeKind::ULongLong => 11,
            TypeKind::Int128 => 20,
            TypeKind::UInt128 => 12,
            TypeKind::Half => 31,
            TypeKind::Float16 => 32,
            TypeKind::ShortAccum => 33,
            TypeKind::Accum => 34,
            TypeKind::LongAccum => 35,
            TypeKind::UShortAccum => 36,
            TypeKind::UAccum => 37,
            TypeKind::ULongAccum => 38,
            TypeKind::Float => 21,
            TypeKind::Double => 22,
            TypeKind::LongDouble => 23,
            TypeKind::Nullptr => 24,
            TypeKind::Complex => 100,
            TypeKind::Dependent => 26,
            TypeKind::Overload => 25,
            TypeKind::ObjCId => 27,
            TypeKind::ObjCClass => 28,
            TypeKind::ObjCSel => 29,
            TypeKind::Float128 => 30,
            TypeKind::ObjCInterface => 108,
            TypeKind::ObjCObjectPointer => 109,
            TypeKind::Pointer => 101,
            TypeKind::BlockPointer => 102,
            TypeKind::MemberPointer => 117,
            TypeKind::LValueReference => 103,
            TypeKind::RValueReference => 104,
            TypeKind::Enum => 106,
            TypeKind::Record => 105,
            TypeKind::Typedef => 107,
            TypeKind::FunctionPrototype => 111,
            TypeKind::FunctionNoPrototype => 110,
            TypeKind::ConstantArray => 112,
            TypeKind::DependentSizedArray => 116,
            TypeKind::IncompleteArray => 114,
            TypeKind::VariableArray => 115,
            TypeKind::Vector => 113,
            TypeKind::Auto => 118,
            TypeKind::Elaborated => 119,
            TypeKind::Pipe => 120,
            TypeKind::OCLImage1dRO => 121,
            TypeKind::OCLImage1dArrayRO => 122,
            TypeKind::OCLImage1dBufferRO => 123,
            TypeKind::OCLImage2dRO => 124,
            TypeKind::OCLImage2dArrayRO => 125,
            TypeKind::OCLImage2dDepthRO => 126,
            TypeKind::OCLImage2dArrayDepthRO => 127,
            TypeKind::OCLImage2dMSAARO => 128,
            TypeKind::OCLImage2dArrayMSAARO => 129,
            TypeKind::OCLImage2dMSAADepthRO => 130,
            TypeKind::OCLImage2dArrayMSAADepthRO => 131,
            TypeKind::OCLImage3dRO => 132,
            TypeKind::OCLImage1dWO => 133,
            TypeKind::OCLImage1dArrayWO => 134,
            TypeKind::OCLImage1dBufferWO => 135,
            TypeKind::OCLImage2dWO => 136,
            TypeKind::OCLImage2dArrayWO => 137,
            TypeKind::OCLImage2dDepthWO => 138,
            TypeKind::OCLImage2dArrayDepthWO => 139,
            TypeKind::OCLImage2dMSAAWO => 140,
            TypeKind::OCLImage2dArrayMSAAWO => 141,
            TypeKind::OCLImage2dMSAADepthWO => 142,
            TypeKind::OCLImage2dArrayMSAADepthWO => 143,
            TypeKind::OCLImage3dWO => 144,
            TypeKind::OCLImage1dRW => 145,
            TypeKind::OCLImage1dArrayRW => 146,
            TypeKind::OCLImage1dBufferRW => 147,
            TypeKind::OCLImage2dRW => 148,
            TypeKind::OCLImage2dArrayRW => 149,
            TypeKind::OCLImage2dDepthRW => 150,
            TypeKind::OCLImage2dArrayDepthRW => 151,
            TypeKind::OCLImage2dMSAARW => 152,
            TypeKind::OCLImage2dArrayMSAARW => 153,
            TypeKind::OCLImage2dMSAADepthRW => 154,
            TypeKind::OCLImage2dArrayMSAADepthRW => 155,
            TypeKind::OCLImage3dRW => 156,
            TypeKind::OCLSampler => 157,
            TypeKind::OCLEvent => 158,
            TypeKind::OCLQueue => 159,
            TypeKind::OCLReserveID => 160,
            TypeKind::ObjCObject => 161,
            TypeKind::ObjCTypeParam => 162,
            TypeKind::Attributed => 163,
            TypeKind::OCLIntelSubgroupAVCMcePayload => 164,
            TypeKind::OCLIntelSubgroupAVCImePayload => 165,
            TypeKind::OCLIntelSubgroupAVCRefPayload => 166,
            TypeKind::OCLIntelSubgroupAVCSicPayload => 167,
            TypeKind::OCLIntelSubgroupAVCMceResult => 168,
            TypeKind::OCLIntelSubgroupAVCImeResult => 169,
            TypeKind::OCLIntelSubgroupAVCRefResult => 170,
            TypeKind::OCLIntelSubgroupAVCSicResult => 171,
            TypeKind::OCLIntelSubgroupAVCImeResultSingleRefStreamout => 172,
            TypeKind::OCLIntelSubgroupAVCImeResultDualRefStreamout => 173,
            TypeKind::OCLIntelSubgroupAVCImeSingleRefStreamin => 174,
            TypeKind::OCLIntelSubgroupAVCImeDualRefStreamin => 175,
            TypeKind::ExtVector => 176,
        }
    }

    /// Whether `raw` is one of the values that `from_raw` recognises.
    pub open spec fn is_code(raw: int) -> bool {
        ||| 1 <= raw <= 38
        ||| 100 <= raw <= 176
    }

    /// Returns the type kind that libclang denotes by `raw`, if `raw` is a recognised value.
    #[verifier::rlimit(100)]
    #[verifier::spinoff_prover]
    pub fn from_raw(raw: i32) -> (result: Option<Self>)
        ensures
            result is Some <==> Self::is_code(raw as int),
            result matches Some(k) ==> k.code() == raw,
    {
        match raw {
            1 => Some(TypeKind::Unexposed),
            2 => Some(TypeKind::Void),
            3 => Some(TypeKind::Bool),
            4 => Some(TypeKind::CharU),
            5 => Some(TypeKind::UChar),
            6 => Some(TypeKind::Char16),
            7 => Some(TypeKind::Char32),
            8 => Some(TypeKind::UShort),
            9 => Some(TypeKind::UInt),
            10 => Some(TypeKind::ULong),
            11 => Some(TypeKind::ULongLong),
            12 => Some(TypeKind::UInt128),
            13 => Some(TypeKind::CharS),
            14 => Some(TypeKind::SChar),
            15 => Some(TypeKind::WChar),
            16 => Some(TypeKind::Short),
            17 => Some(TypeKind::Int),
            18 => Some(TypeKind::Long),
            19 => Some(TypeKind::LongLong),
            20 => Some(TypeKind::Int128),
            21 => Some(TypeKind::Float),
            22 => Some(TypeKind::Double),
            23 => Some(TypeKind::LongDouble),
            24 => Some(TypeKind::Nullptr),
            25 => Some(TypeKind::Overload),
            26 => Some(TypeKind::Dependent),
            27 => Some(TypeKind::ObjCId),
            28 => Some(TypeKind::ObjCClass),
            29 => Some(TypeKind::ObjCSel),
            30 => Some(TypeKind::Float128),
            31 => Some(TypeKind::Half),
            32 => Some(TypeKind::Float16),
            33 => Some(TypeKind::ShortAccum),
            34 => Some(TypeKind::Accum),
            35 => Some(TypeKind::LongAccum),
            36 => Some(TypeKind::UShortAccum),
            37 => Some(TypeKind::UAccum),
            38 => Some(TypeKind::ULongAccum),
            100 => Some(TypeKind::Complex),
            101 => Some(TypeKind::Pointer),
            102 => Some(TypeKind::BlockPointer),
            103 => Some(TypeKind::LValueReference),
            104 => Some(TypeKind::RValueReference),
            105 => Some(TypeKind::Record),
            106 => Some(TypeKind::Enum),
            107 => Some(TypeKind::Typedef),
            108 => Some(TypeKind::ObjCInterface),
            109 => Some(TypeKind::ObjCObjectPointer),
            110 => Some(TypeKind::FunctionNoPrototype),
            111 => Some(TypeKind::FunctionPrototype),
            112 => Some(TypeKind::ConstantArray),
            113 => Some(TypeKind::Vector),
            114 => Some(TypeKind::IncompleteArray),
            115 => Some(TypeKind::VariableArray),
            116 => Some(TypeKind::DependentSizedArray),
            117 => Some(TypeKind::MemberPointer),
            118 => Some(TypeKind::Auto),
            119 => Some(TypeKind::Elaborated),
            120 => Some(TypeKind::Pipe),
            121 => Some(TypeKind::OCLImage1dRO),
            122 => Some(TypeKind::OCLImage1dArrayRO),
            123 => Some(TypeKind::OCLImage1dBufferRO),
            124 => Some(TypeKind::OCLImage2dRO),
            125 => Some(TypeKind::OCLImage2dArrayRO),
            126 => Some(TypeKind::OCLImage2dDepthRO),
            127 => Some(TypeKind::OCLImage2dArrayDepthRO),
            128 => Some(TypeKind::OCLImage2dMSAARO),
            129 => Some(TypeKind::OCLImage2dArrayMSAARO),
            130 => Some(TypeKind::OCLImage2dMSAADepthRO),
            131 => Some(TypeKind::OCLImage2dArrayMSAADepthRO),
            132 => Some(TypeKind::OCLImage3dRO),
            133 => Some(TypeKind::OCLImage1dWO),
            134 => Some(TypeKind::OCLImage1dArrayWO),
            135 => Some(TypeKind::OCLImage1dBufferWO),
            136 => Some(TypeKind::OCLImage2dWO),
            137 => Some(TypeKind::OCLImage2dArrayWO),
            138 => Some(TypeKind::OCLImage2dDepthWO),
            139 => Some(TypeKind::OCLImage2dArrayDepthWO),
            140 => Some(TypeKind::OCLImage2dMSAAWO),
            141 => Some(TypeKind::OCLImage2dArrayMSAAWO),
            142 => Some(TypeKind::OCLImage2dMSAADepthWO),
            143 => Some(TypeKind::OCLImage2dArrayMSAADepthWO),
            144 => Some(TypeKind::OCLImage3dWO),
            145 => Some(TypeKind::OCLImage1dRW),
            146 => Some(TypeKind::OCLImage1dArrayRW),
            147 => Some(TypeKind::OCLImage1dBufferRW),
            148 => Some(TypeKind::OCLImage2dRW),
            149 => Some(TypeKind::OCLImage2dArrayRW),
            150 => Some(TypeKind::OCLImage2dDepthRW),
            151 => Some(TypeKind::OCLImage2dArrayDepthRW),
            152 => Some(TypeKind::OCLImage2dMSAARW),
            153 => Some(TypeKind::OCLImage2dArrayMSAARW),
            154 => Some(TypeKind::OCLImage2dMSAADepthRW),
            155 => Some(TypeKind::OCLImage2dArrayMSAADepthRW),
            156 => Some(TypeKind::OCLImage3dRW),
            157 => Some(TypeKind::OCLSampler),
            158 => Some(TypeKind::OCLEvent),
            159 => Some(TypeKind::OCLQueue),
            160 => Some(TypeKind::OCLReserveID),
            161 => Some(TypeKind::ObjCObject),
            162 => Some(TypeKind::ObjCTypeParam),
            163 => Some(TypeKind::Attributed),
            164 => Some(TypeKind::OCLIntelSubgroupAVCMcePayload),
            165 => Some(TypeKind::OCLIntelSubgroupAVCImePayload),
            166 => Some(TypeKind::OCLIntelSubgroupAVCRefPayload),
            167 => Some(TypeKind::OCLIntelSubgroupAVCSicPayload),
            168 => Some(TypeKind::OCLIntelSubgroupAVCMceResult),
            169 => Some(TypeKind::OCLIntelSubgroupAVCImeResult),
            170 => Some(TypeKind::OCLIntelSubgroupAVCRefResult),
            171 => Some(TypeKind::OCLIntelSubgroupAVCSicResult),
            172 => Some(TypeKind::OCLIntelSubgroupAVCImeResultSingleRefStreamout),
            173 => Some(TypeKind::OCLIntelSubgroupAVCImeResultDualRefStreamout),
            174 => Some(TypeKind::OCLIntelSubgroupAVCImeSingleRefStreamin),
            175 => Some(TypeKind::OCLIntelSubgroupAVCImeDualRefStreamin),
            176 => Some(TypeKind::ExtVector),
            _ => None,
        }
    }

    spec fn decode(raw: int) -> Option<Self> {
        if raw == 1 {
            Some(TypeKind::Unexposed)
        } else if raw == 2 {
            Some(TypeKind::Void)
        } else if raw == 3 {
            Some(TypeKind::Bool)
        } else if raw == 13 {
            Some(TypeKind::CharS)
        } else if raw == 4 {
            Some(TypeKind::CharU)
        } else if raw == 14 {
            Some(TypeKind::SChar)
        } else if raw == 5 {
            Some(TypeKind::UChar)
        } else if raw == 15 {
            Some(TypeKind::WChar)
        } else if raw == 6 {
            Some(TypeKind::Char16)
        } else if raw == 7 {
            Some(TypeKind::Char32)
        } else if raw == 16 {
            Some(TypeKind::Short)
        } else if raw == 8 {
            Some(TypeKind::UShort)
        } else if raw == 17 {
            Some(TypeKind::Int)
        } else if raw == 9 {
            Some(TypeKind::UInt)
        } else if raw == 18 {
            Some(TypeKind::Long)
        } else if raw == 10 {
            Some(TypeKind::ULong)
        } else if raw == 19 {
            Some(TypeKind::LongLong)
        } else if raw == 11 {
            Some(TypeKind::ULongLong)
        } else if raw == 20 {
            Some(TypeKind::Int128)
        } else if raw == 12 {
            Some(TypeKind::UInt128)
        } else if raw == 31 {
            Some(TypeKind::Half)
        } else if raw == 32 {
            Some(TypeKind::Float16)
        } else if raw == 33 {
            Some(TypeKind::ShortAccum)
        } else if raw == 34 {
            Some(TypeKind::Accum)
        } else if raw == 35 {
            Some(TypeKind::LongAccum)
        } else if raw == 36 {
            Some(TypeKind::UShortAccum)
        } else if raw == 37 {
            Some(TypeKind::UAccum)
        } else if raw == 38 {
            Some(TypeKind::ULongAccum)
        } else if raw == 21 {
            Some(TypeKind::Float)
        } else if raw == 22 {
            Some(TypeKind::Double)
        } else if raw == 23 {
            Some(TypeKind::LongDouble)
        } else if raw == 24 {
            Some(TypeKind::Nullptr)
        } else if raw == 100 {
            Some(TypeKind::Complex)
        } else if raw == 26 {
            Some(TypeKind::Dependent)
        } else if raw == 25 {
            Some(TypeKind::Overload)
        } else if raw == 27 {
            Some(TypeKind::ObjCId)
        } else if raw == 28 {
            Some(TypeKind::ObjCClass)
        } else if raw == 29 {
            Some(TypeKind::ObjCSel)
        } else if raw == 30 {
            Some(TypeKind::Float128)
        } else if raw == 108 {
            Some(TypeKind::ObjCInterface)
        } else if raw == 109 {
            Some(TypeKind::ObjCObjectPointer)
        } else if raw == 101 {
            Some(TypeKind::Pointer)
        } else if raw == 102 {
            Some(TypeKind::BlockPointer)
        } else if raw == 117 {
            Some(TypeKind::MemberPointer)
        } else if raw == 103 {
            Some(TypeKind::LValueReference)
        } else if raw == 104 {
            Some(TypeKind::RValueReference)
        } else if raw == 106 {
            Some(TypeKind::Enum)
        } else if raw == 105 {
            Some(TypeKind::Record)
        } else if raw == 107 {
            Some(TypeKind::Typedef)
        } else if raw == 111 {
            Some(TypeKind::FunctionPrototype)
        } else if raw == 110 {
            Some(TypeKind::FunctionNoPrototype)
        } else if raw == 112 {
            Some(TypeKind::ConstantArray)
        } else if raw == 116 {
            Some(TypeKind::DependentSizedArray)
        } else if raw == 114 {
            Some(TypeKind::IncompleteArray)
        } else if raw == 115 {
            Some(TypeKind::VariableArray)
        } else if raw == 113 {
            Some(TypeKind::Vector)
        } else if raw == 118 {
            Some(TypeKind::Auto)
        } else if raw == 119 {
            Some(TypeKind::Elaborated)
        } else if raw == 120 {
            Some(TypeKind::Pipe)
        } else if raw == 121 {
            Some(TypeKind::OCLImage1dRO)
        } else if raw == 122 {
            Some(TypeKind::OCLImage1dArrayRO)
        } else if raw == 123 {
            Some(TypeKind::OCLImage1dBufferRO)
        } else if raw == 124 {
            Some(TypeKind::OCLImage2dRO)
        } else if raw == 125 {
            Some(TypeKind::OCLImage2dArrayRO)
        } else if raw == 126 {
            Some(TypeKind::OCLImage2dDepthRO)
        } else if raw == 127 {
            Some(TypeKind::OCLImage2dArrayDepthRO)
        } else if raw == 128 {
            Some(TypeKind::OCLImage2dMSAARO)
        } else if raw == 129 {
            Some(TypeKind::OCLImage2dArrayMSAARO)
        } else if raw == 130 {
            Some(TypeKind::OCLImage2dMSAADepthRO)
        } else if raw == 131 {
            Some(TypeKind::OCLImage2dArrayMSAADepthRO)
        } else if raw == 132 {
            Some(TypeKind::OCLImage3dRO)
        } else if raw == 133 {
            Some(TypeKind::OCLImage1dWO)
        } else if raw == 134 {
            Some(TypeKind::OCLImage1dArrayWO)
        } else if raw == 135 {
            Some(TypeKind::OCLImage1dBufferWO)
        } else if raw == 136 {
            Some(TypeKind::OCLImage2dWO)
        } else if raw == 137 {
            Some(TypeKind::OCLImage2dArrayWO)
        } else if raw == 138 {
            Some(TypeKind::OCLImage2dDepthWO)
        } else if raw == 139 {
            Some(TypeKind::OCLImage2dArrayDepthWO)
        } else if raw == 140 {
            Some(TypeKind::OCLImage2dMSAAWO)
        } else if raw == 141 {
            Some(TypeKind::OCLImage2dArrayMSAAWO)
        } else if raw == 142 {
            Some(TypeKind::OCLImage2dMSAADepthWO)
        } else if raw == 143 {
            Some(TypeKind::OCLImage2dArrayMSAADepthWO)
        } else if raw == 144 {
            Some(TypeKind::OCLImage3dWO)
        } else if raw == 145 {
            Some(TypeKind::OCLImage1dRW)
        } else if raw == 146 {
            Some(TypeKind::OCLImage1dArrayRW)
        } else if raw == 147 {
            Some(TypeKind::OCLImage1dBufferRW)
        } else if raw == 148 {
            Some(TypeKind::OCLImage2dRW)
        } else if raw == 149 {
            Some(TypeKind::OCLImage2dArrayRW)
        } else if raw == 150 {
            Some(TypeKind::OCLImage2dDepthRW)
        } else if raw == 151 {
            Some(TypeKind::OCLImage2dArrayDepthRW)
        } else if raw == 152 {
            Some(TypeKind::OCLImage2dMSAARW)
        } else if raw == 153 {
            Some(TypeKind::OCLImage2dArrayMSAARW)
        } else if raw == 154 {
            Some(TypeKind::OCLImage2dMSAADepthRW)
        } else if raw == 155 {
            Some(TypeKind::OCLImage2dArrayMSAADepthRW)
        } else if raw == 156 {
            Some(TypeKind::OCLImage3dRW)
        } else if raw == 157 {
            Some(TypeKind::OCLSampler)
        } else if raw == 158 {
            Some(TypeKind::OCLEvent)
        } else if raw == 159 {
            Some(TypeKind::OCLQueue)
        } else if raw == 160 {
            Some(TypeKind::OCLReserveID)
        } else if raw == 161 {
            Some(TypeKind::ObjCObject)
        } else if raw == 162 {
            Some(TypeKind::ObjCTypeParam)
        } else if raw == 163 {
            Some(TypeKind::Attributed)
        } else if raw == 164 {
            Some(TypeKind::OCLIntelSubgroupAVCMcePayload)
        } else if raw == 165 {
            Some(TypeKind::OCLIntelSubgroupAVCImePayload)
        } else if raw == 166 {
            Some(TypeKind::OCLIntelSubgroupAVCRefPayload)
        } else if raw == 167 {
            Some(TypeKind::OCLIntelSubgroupAVCSicPayload)
        } else if raw == 168 {
            Some(TypeKind::OCLIntelSubgroupAVCMceResult)
        } else if raw == 169 {
            Some(TypeKind::OCLIntelSubgroupAVCImeResult)
        } else if raw == 170 {
            Some(TypeKind::OCLIntelSubgroupAVCRefResult)
        } else if raw == 171 {
            Some(TypeKind::OCLIntelSubgroupAVCSicResult)
        } else if raw == 172 {
            Some(TypeKind::OCLIntelSubgroupAVCImeResultSingleRefStreamout)
        } else if raw == 173 {
            Some(TypeKind::OCLIntelSubgroupAVCImeResultDualRefStreamout)
        } else if raw == 174 {
            Some(TypeKind::OCLIntelSubgroupAVCImeSingleRefStreamin)
        } else if raw == 175 {
            Some(TypeKind::OCLIntelSubgroupAVCImeDualRefStreamin)
        } else if raw == 176 {
            Some(TypeKind::ExtVector)
        } else {
            None
        }
    }

    #[verifier::rlimit(100)]
    #[verifier::spinoff_prover]
    proof fn lemma_decode(self)
        ensures
            Self::decode(self.code()) == Some(self),
    {
        match self {
            TypeKind::Unexposed => {},
            TypeKind::Void => {},
            TypeKind::Bool => {},
            TypeKind::CharS => {},
            TypeKind::CharU => {},
            TypeKind::SChar => {},
            TypeKind::UChar => {},
            TypeKind::WChar => {},
            TypeKind::Char16 => {},
            TypeKind::Char32 => {},
            TypeKind::Short => {},
            TypeKind::UShort => {},
            TypeKind::Int => {},
            TypeKind::UInt => {},
            TypeKind::Long => {},
            TypeKind::ULong => {},
            TypeKind::LongLong => {},
            TypeKind::ULongLong => {},
            TypeKind::Int128 => {},
            TypeKind::UInt128 => {},
            TypeKind::Half => {},
            TypeKind::Float16 => {},
            TypeKind::ShortAccum => {},
            TypeKind::Accum => {},
            TypeKind::LongAccum => {},
            TypeKind::UShortAccum => {},
            TypeKind::UAccum => {},
            TypeKind::ULongAccum => {},
            TypeKind::Float => {},
            TypeKind::Double => {},
            TypeKind::LongDouble => {},
            TypeKind::Nullptr => {},
            TypeKind::Complex => {},
            TypeKind::Dependent => {},
            TypeKind::Overload => {},
            TypeKind::ObjCId => {},
            TypeKind::ObjCClass => {},
            TypeKind::ObjCSel => {},
            TypeKind::Float128 => {},
            TypeKind::ObjCInterface => {},
            TypeKind::ObjCObjectPointer => {},
            TypeKind::Pointer => {},
            TypeKind::BlockPointer => {},
            TypeKind::MemberPointer => {},
            TypeKind::LValueReference => {},
            TypeKind::RValueReference => {},
            TypeKind::Enum => {},
            TypeKind::Record => {},
            TypeKind::Typedef => {},
            TypeKind::FunctionPrototype => {},
            TypeKind::FunctionNoPrototype => {},
            TypeKind::ConstantArray => {},
            TypeKind::DependentSizedArray => {},
            TypeKind::IncompleteArray => {},
            TypeKind::VariableArray => {},
            TypeKind::Vector => {},
            TypeKind::Auto => {},
            TypeKind::Elaborated => {},
            TypeKind::Pipe => {},
            TypeKind::OCLImage1dRO => {},
            TypeKind::OCLImage1dArrayRO => {},
            TypeKind::OCLImage1dBufferRO => {},
            TypeKind::OCLImage2dRO => {},
            TypeKind::OCLImage2dArrayRO => {},
            TypeKind::OCLImage2dDepthRO => {},
            TypeKind::OCLImage2dArrayDepthRO => {},
            TypeKind::OCLImage2dMSAARO => {},
            TypeKind::OCLImage2dArrayMSAARO => {},
            TypeKind::OCLImage2dMSAADepthRO => {},
            TypeKind::OCLImage2dArrayMSAADepthRO => {},
            TypeKind::OCLImage3dRO => {},
            TypeKind::OCLImage1dWO => {},
            TypeKind::OCLImage1dArrayWO => {},
            TypeKind::OCLImage1dBufferWO => {},
            TypeKind::OCLImage2dWO => {},
            TypeKind::OCLImage2dArrayWO => {},
            TypeKind::OCLImage2dDepthWO => {},
            TypeKind::OCLImage2dArrayDepthWO => {},
            TypeKind::OCLImage2dMSAAWO => {},
            TypeKind::OCLImage2dArrayMSAAWO => {},
            TypeKind::OCLImage2dMSAADepthWO => {},
            TypeKind::OCLImage2dArrayMSAADepthWO => {},
            TypeKind::OCLImage3dWO => {},
            TypeKind::OCLImage1dRW => {},
            TypeKind::OCLImage1dArrayRW => {},
            TypeKind::OCLImage1dBufferRW => {},
            TypeKind::OCLImage2dRW => {},
            TypeKind::OCLImage2dArrayRW => {},
            TypeKind::OCLImage2dDepthRW => {},
            TypeKind::OCLImage2dArrayDepthRW => {},
            TypeKind::OCLImage2dMSAARW => {},
            TypeKind::OCLImage2dArrayMSAARW => {},
            TypeKind::OCLImage2dMSAADepthRW => {},
            TypeKind::OCLImage2dArrayMSAADepthRW => {},
            TypeKind::OCLImage3dRW => {},
            TypeKind::OCLSampler => {},
            TypeKind::OCLEvent => {},
            TypeKind::OCLQueue => {},
            TypeKind::OCLReserveID => {},
            TypeKind::ObjCObject => {},
            TypeKind::ObjCTypeParam => {},
            TypeKind::Attributed => {},
            TypeKind::OCLIntelSubgroupAVCMcePayload => {},
            TypeKind::OCLIntelSubgroupAVCImePayload => {},
            TypeKind::OCLIntelSubgroupAVCRefPayload => {},
            TypeKind::OCLIntelSubgroupAVCSicPayload => {},
            TypeKind::OCLIntelSubgroupAVCMceResult => {},
            TypeKind::OCLIntelSubgroupAVCImeResult => {},
            TypeKind::OCLIntelSubgroupAVCRefResult => {},
            TypeKind::OCLIntelSubgroupAVCSicResult => {},
            TypeKind::OCLIntelSubgroupAVCImeResultSingleRefStreamout => {},
            TypeKind::OCLIntelSubgroupAVCImeResultDualRefStreamout => {},
            TypeKind::OCLIntelSubgroupAVCImeSingleRefStreamin => {},
            TypeKind::OCLIntelSubgroupAVCImeDualRefStreamin => {},
            TypeKind::ExtVector => {},
        }
    }

    /// No two variants share a value; every variant's value is recognised by `from_raw`.
    pub proof fn lemma_code(self, other: Self)
        ensures
            self.code() == other.code() ==> self == other,
            Self::is_code(self.code()),
    {
        self.lemma_decode();
        other.lemma_decode();
    }
}

/// Indicates the linker visibility of an AST element.
#[derive(Copy, Clone, Debug, PartialEq, Eq, Hash, Structural)]
pub enum Visibility {
    /// The AST element can be seen by the linker.
    Default,
    /// The AST element cannot be seen by the linker.
    Hidden,
    /// The AST element can be seen by the linker but resolves to a symbol inside this object.
    Protected,
}

impl Visibility {
    /// The value libclang uses for this visibility.
    pub open spec fn code(self) -> int {
        match self {
            Visibility::Default => 3,
            Visibility::Hidden => 1,
            Visibility::Protected => 2,
        }
    }

    /// Returns the value libclang uses for this visibility.
    pub fn to_raw(self) -> (raw: i32)
        ensures
            raw == self.code(),
    {
        match self {
            Visibility::Default => 3,
            Visibility::Hidden => 1,
            Visibility::Protected => 2,
        }
    }

    /// Whether `raw` is one of the values that `from_raw` recognises.
    pub open spec fn is_code(raw: int) -> bool {
        1 <= raw <= 3
    }

    /// Returns the visibility that libclang denotes by `raw`, if `raw` is a recognised value.
    pub fn from_raw(raw: i32) -> (result: Option<Self>)
        ensures
            result is Some <==> Self::is_code(raw as int),
            result matches Some(k) ==> k.code() == raw,
    {
        match raw {
            1 => Some(Visibility::Hidden),
            2 => Some(Visibility::Protected),
            3 => Some(Visibility::Default),
            _ => None,
        }
    }

    spec fn decode(raw: int) -> Option<Self> {
        if raw == 3 {
            Some(Visibility::Default)
        } else if raw == 1 {
            Some(Visibility::Hidden)
        } else if raw == 2 {
            Some(Visibility::Protected)
        } else {
            None
        }
    }

    proof fn lemma_decode(self)
        ensures
            Self::decode(self.code()) == Some(self),
    {
        match self {
            Visibility::Default => {},
            Visibility::Hidden => {},
            Visibility::Protected => {},
        }
    }

    /// No two variants share a value; every variant's value is recognised by `from_raw`.
    pub proof fn lemma_code(self, other: Self)
        ensures
            self.code() == other.code() ==> self == other,
            Self::is_code(self.code()),
    {
        self.lemma_decode();
        other.lemma_decode();
    }
}


impl EntityKind {
    /// Returns the entity kind that libclang denotes by `raw`, or `EntityKind::NotImplemented`
    /// when `raw` is not a recognised value.
    pub fn from_raw_infallible(raw: i32) -> (kind: Self)
        ensures
            Self::is_code(raw as int) ==> kind.code() == raw,
            !Self::is_code(raw as int) ==> kind == EntityKind::NotImplemented,
    {
        match Self::from_raw(raw) {
            Some(kind) => kind,
            None => EntityKind::NotImplemented,
        }
    }

    /// Returns whether this entity kind is a valid one, i.e., not one of the kinds libclang uses
    /// to report an invalid file, declaration, or code (or a kind that may yet be added among
    /// those).
    pub fn is_valid(&self) -> (valid: bool)
        ensures
            valid == !(70 <= self.code() <= 75),
    {
        let raw = self.to_raw();
        !(70 <= raw && raw <= 75)
    }
}

impl TypeKind {
    /// Returns the type kind that libclang denotes by `raw`, or `TypeKind::Unexposed` when `raw`
    /// is not a recognised value.
    pub fn from_raw_infallible(raw: i32) -> (kind: Self)
        ensures
            Self::is_code(raw as int) ==> kind.code() == raw,
            !Self::is_code(raw as int) ==> kind == TypeKind::Unexposed,
    {
        match Self::from_raw(raw) {
            Some(kind) => kind,
            None => TypeKind::Unexposed,
        }
    }
}


impl Accessibility {
    /// Each variant stands for libclang's value of the same name: the values libclang's C
    /// interface gives them.
    pub proof fn lemma_libclang_values()
        ensures
            Accessibility::Private.code() == 3,
            Accessibility::Protected.code() == 2,
            Accessibility::Public.code() == 1,
    {
    }
}

impl Availability {
    /// Each variant stands for libclang's value of the same name: the values libclang's C
    /// interface gives them.
    pub proof fn lemma_libclang_values()
        ensures
            Availability::Available.code() == 0,
            Availability::Deprecated.code() == 1,
            Availability::Inaccessible.code() == 3,
            Availability::Unavailable.code() == 2,
    {
    }
}

impl CallingConvention {
    /// Each variant stands for libclang's value of the same name: the values libclang's C
    /// interface gives them.
    pub proof fn lemma_libclang_values()
        ensures
            CallingConvention::Unexposed.code() == 200,
            CallingConvention::Cdecl.code() == 1,
            CallingConvention::Fastcall.code() == 3,
            CallingConvention::Pascal.code() == 5,
            CallingConvention::Stdcall.code() == 2,
            CallingConvention::Thiscall.code() == 4,
            CallingConvention::Vectorcall.code() == 12,
            CallingConvention::Swift.code() == 13,
            CallingConvention::PreserveMost.code() == 14,
            CallingConvention::PreserveAll.code() == 15,
            CallingConvention::Aapcs.code() == 6,
            CallingConvention::AapcsVfp.code() == 7,
            CallingConvention::IntelOcl.code() == 9,
            CallingConvention::RegCall.code() == 8,
            CallingConvention::SysV64.code() == 11,
            CallingConvention::Win64.code() == 10,
    {
    }
}

impl EntityKind {
    /// Each variant stands for libclang's value of the same name: the values libclang's C
    /// interface gives them.
    pub proof fn lemma_libclang_values()
        ensures
            EntityKind::UnexposedDecl.code() == 1,
            EntityKind::StructDecl.code() == 2,
            EntityKind::UnionDecl.code() == 3,
            EntityKind::ClassDecl.code() == 4,
            EntityKind::EnumDecl.code() == 5,
            EntityKind::FieldDecl.code() == 6,
            EntityKind::EnumConstantDecl.code() == 7,
            EntityKind::FunctionDecl.code() == 8,
            EntityKind::VarDecl.code() == 9,
            EntityKind::ParmDecl.code() == 10,
            EntityKind::ObjCInterfaceDecl.code() == 11,
            EntityKind::ObjCCategoryDecl.code() == 12,
            EntityKind::ObjCProtocolDecl.code() == 13,
            EntityKind::ObjCPropertyDecl.code() == 14,
            EntityKind::ObjCIvarDecl.code() == 15,
            EntityKind::ObjCInstanceMethodDecl.code() == 16,
            EntityKind::ObjCClassMethodDecl.code() == 17,
            EntityKind::ObjCImplementationDecl.code() == 18,
            EntityKind::ObjCCategoryImplDecl.code() == 19,
            EntityKind::TypedefDecl.code() == 20,
            EntityKind::Method.code() == 21,
            EntityKind::Namespace.code() == 22,
            EntityKind::LinkageSpec.code() == 23,
            EntityKind::Constructor.code() == 24,
            EntityKind::Destructor.code() == 25,
            EntityKind::ConversionFunction.code() == 26,
            EntityKind::TemplateTypeParameter.code() == 27,
            EntityKind::NonTypeTemplateParameter.code() == 28,
            EntityKind::TemplateTemplateParameter.code() == 29,
            EntityKind::FunctionTemplate.code() == 30,
            EntityKind::ClassTemplate.code() == 31,
            EntityKind::ClassTemplatePartialSpecialization.code() == 32,
            EntityKind::NamespaceAlias.code() == 33,
            EntityKind::UsingDirective.code() == 34,
            EntityKind::UsingDeclaration.code() == 35,
            EntityKind::TypeAliasDecl.code() == 36,
            EntityKind::ObjCSynthesizeDecl.code() == 37,
            EntityKind::ObjCDynamicDecl.code() == 38,
            EntityKind::AccessSpecifier.code() == 39,
            EntityKind::ObjCSuperClassRef.code() == 40,
            EntityKind::ObjCProtocolRef.code() == 41,
            EntityKind::ObjCClassRef.code() == 42,
            EntityKind::TypeRef.code() == 43,
            EntityKind::BaseSpecifier.code() == 44,
            EntityKind::TemplateRef.code() == 45,
            EntityKind::NamespaceRef.code() == 46,
            EntityKind::MemberRef.code() == 47,
            EntityKind::LabelRef.code() == 48,
            EntityKind::OverloadedDeclRef.code() == 49,
            EntityKind::VariableRef.code() == 50,
            EntityKind::InvalidFile.code() == 70,
            EntityKind::InvalidDecl.code() == 71,
            EntityKind::NotImplemented.code() == 72,
            EntityKind::InvalidCode.code() == 73,
            EntityKind::UnexposedExpr.code() == 100,
            EntityKind::DeclRefExpr.code() == 101,
            EntityKind::MemberRefExpr.code() == 102,
            EntityKind::CallExpr.code() == 103,
            EntityKind::ObjCMessageExpr.code() == 104,
            EntityKind::BlockExpr.code() == 105,
            EntityKind::IntegerLiteral.code() == 106,
            EntityKind::FloatingLiteral.code() == 107,
            EntityKind::ImaginaryLiteral.code() == 108,
            EntityKind::StringLiteral.code() == 109,
            EntityKind::CharacterLiteral.code() == 110,
            EntityKind::ParenExpr.code() == 111,
            EntityKind::UnaryOperator.code() == 112,
            EntityKind::ArraySubscriptExpr.code() == 113,
            EntityKind::BinaryOperator.code() == 114,
            EntityKind::CompoundAssignOperator.code() == 115,
            EntityKind::ConditionalOperator.code() == 116,
            EntityKind::CStyleCastExpr.code() == 117,
            EntityKind::CompoundLiteralExpr.code() == 118,
            EntityKind::InitListExpr.code() == 119,
            EntityKind::AddrLabelExpr.code() == 120,
            EntityKind::StmtExpr.code() == 121,
            EntityKind::GenericSelectionExpr.code() == 122,
            EntityKind::GNUNullExpr.code() == 123,
            EntityKind::StaticCastExpr.code() == 124,
            EntityKind::DynamicCastExpr.code() == 125,
            EntityKind::ReinterpretCastExpr.code() == 126,
            EntityKind::ConstCastExpr.code() == 127,
            EntityKind::FunctionalCastExpr.code() == 128,
            EntityKind::TypeidExpr.code() == 129,
            EntityKind::BoolLiteralExpr.code() == 130,
            EntityKind::NullPtrLiteralExpr.code() == 131,
            EntityKind::ThisExpr.code() == 132,
            EntityKind::ThrowExpr.code() == 133,
            EntityKind::NewExpr.code() == 134,
            EntityKind::DeleteExpr.code() == 135,
            EntityKind::UnaryExpr.code() == 136,
            EntityKind::ObjCStringLiteral.code() == 137,
            EntityKind::ObjCEncodeExpr.code() == 138,
            EntityKind::ObjCSelectorExpr.code() == 139,
            EntityKind::ObjCProtocolExpr.code() == 140,
            EntityKind::ObjCBridgedCastExpr.code() == 141,
            EntityKind::PackExpansionExpr.code() == 142,
            EntityKind::SizeOfPackExpr.code() == 143,
            EntityKind::LambdaExpr.code() == 144,
            EntityKind::ObjCBoolLiteralExpr.code() == 145,
            EntityKind::ObjCSelfExpr.code() == 146,
            EntityKind::OmpArraySectionExpr.code() == 147,
            EntityKind::ObjCAvailabilityCheckExpr.code() == 148,
            EntityKind::FixedPointLiteral.code() == 149,
            EntityKind::UnexposedStmt.code() == 200,
            EntityKind::LabelStmt.code() == 201,
            EntityKind::CompoundStmt.code() == 202,
            EntityKind::CaseStmt.code() == 203,
            EntityKind::DefaultStmt.code() == 204,
            EntityKind::IfStmt.code() == 205,
            EntityKind::SwitchStmt.code() == 206,
            EntityKind::WhileStmt.code() == 207,
            EntityKind::DoStmt.code() == 208,
            EntityKind::ForStmt.code() == 209,
            EntityKind::GotoStmt.code() == 210,
            EntityKind::IndirectGotoStmt.code() == 211,
            EntityKind::ContinueStmt.code() == 212,
            EntityKind::BreakStmt.code() == 213,
            EntityKind::ReturnStmt.code() == 214,
            EntityKind::AsmStmt.code() == 215,
            EntityKind::ObjCAtTryStmt.code() == 216,
            EntityKind::ObjCAtCatchStmt.code() == 217,
            EntityKind::ObjCAtFinallyStmt.code() == 218,
            EntityKind::ObjCAtThrowStmt.code() == 219,
            EntityKind::ObjCAtSynchronizedStmt.code() == 220,
            EntityKind::ObjCAutoreleasePoolStmt.code() == 221,
            EntityKind::ObjCForCollectionStmt.code() == 222,
            EntityKind::CatchStmt.code() == 223,
            EntityKind::TryStmt.code() == 224,
            EntityKind::ForRangeStmt.code() == 225,
            EntityKind::SehTryStmt.code() == 226,
            EntityKind::SehExceptStmt.code() == 227,
            EntityKind::SehFinallyStmt.code() == 228,
            EntityKind::SehLeaveStmt.code() == 247,
            EntityKind::MsAsmStmt.code() == 229,
            EntityKind::NullStmt.code() == 230,
            EntityKind::DeclStmt.code() == 231,
            EntityKind::OmpParallelDirective.code() == 232,
            EntityKind::OmpSimdDirective.code() == 233,
            EntityKind::OmpForDirective.code() == 234,
            EntityKind::OmpSectionsDirective.code() == 235,
            EntityKind::OmpSectionDirective.code() == 236,
            EntityKind::OmpSingleDirective.code() == 237,
            EntityKind::OmpParallelForDirective.code() == 238,
            EntityKind::OmpParallelSectionsDirective.code() == 239,
            EntityKind::OmpTaskDirective.code() == 240,
            EntityKind::OmpMasterDirective.code() == 241,
            EntityKind::OmpCriticalDirective.code() == 242,
            EntityKind::OmpTaskyieldDirective.code() == 243,
            EntityKind::OmpBarrierDirective.code() == 244,
            EntityKind::OmpTaskwaitDirective.code() == 245,
            EntityKind::OmpFlushDirective.code() == 246,
            EntityKind::OmpOrderedDirective.code() == 248,
            EntityKind::OmpAtomicDirective.code() == 249,
            EntityKind::OmpForSimdDirective.code() == 250,
            EntityKind::OmpParallelForSimdDirective.code() == 251,
            EntityKind::OmpTargetDirective.code() == 252,
            EntityKind::OmpTeamsDirective.code() == 253,
            EntityKind::OmpTaskgroupDirective.code() == 254,
            EntityKind::OmpCancellationPointDirective.code() == 255,
            EntityKind::OmpCancelDirective.code() == 256,
            EntityKind::OmpTargetDataDirective.code() == 257,
            EntityKind::OmpTaskLoopDirective.code() == 258,
            EntityKind::OmpTaskLoopSimdDirective.code() == 259,
            EntityKind::OmpDistributeDirective.code() == 260,
            EntityKind::OmpTargetEnterDataDirective.code() == 261,
            EntityKind::OmpTargetExitDataDirective.code() == 262,
            EntityKind::OmpTargetParallelDirective.code() == 263,
            EntityKind::OmpTargetParallelForDirective.code() == 264,
            EntityKind::OmpTargetUpdateDirective.code() == 265,
            EntityKind::OmpDistributeParallelForDirective.code() == 266,
            EntityKind::OmpDistributeParallelForSimdDirective.code() == 267,
            EntityKind::OmpDistributeSimdDirective.code() == 268,
            EntityKind::OmpTargetParallelForSimdDirective.code() == 269,
            EntityKind::OmpTargetSimdDirective.code() == 270,
            EntityKind::OmpTeamsDistributeDirective.code() == 271,
            EntityKind::OmpTeamsDistributeSimdDirective.code() == 272,
            EntityKind::OmpTeamsDistributeParallelForSimdDirective.code() == 273,
            EntityKind::OmpTeamsDistributeParallelForDirective.code() == 274,
            EntityKind::OmpTargetTeamsDirective.code() == 275,
            EntityKind::OmpTargetTeamsDistributeDirective.code() == 276,
            EntityKind::OmpTargetTeamsDistributeParallelForDirective.code() == 277,
            EntityKind::OmpTargetTeamsDistributeParallelForSimdDirective.code() == 278,
            EntityKind::OmpTargetTeamsDistributeSimdDirective.code() == 279,
            EntityKind::BitCastExpr.code() == 280,
            EntityKind::OmpMasterTaskLoopDirective.code() == 281,
            EntityKind::OmpParallelMasterTaskLoopDirective.code() == 282,
            EntityKind::OmpMasterTaskLoopSimdDirective.code() == 283,
            EntityKind::OmpParallelMasterTaskLoopSimdDirective.code() == 284,
            EntityKind::OmpParallelMasterDirective.code() == 285,
            EntityKind::TranslationUnit.code() == 300,
            EntityKind::UnexposedAttr.code() == 400,
            EntityKind::IbActionAttr.code() == 401,
            EntityKind::IbOutletAttr.code() == 402,
            EntityKind::IbOutletCollectionAttr.code() == 403,
            EntityKind::FinalAttr.code() == 404,
            EntityKind::OverrideAttr.code() == 405,
            EntityKind::AnnotateAttr.code() == 406,
            EntityKind::AsmLabelAttr.code() == 407,
            EntityKind::PackedAttr.code() == 408,
            EntityKind::PureAttr.code() == 409,
            EntityKind::ConstAttr.code() == 410,
            EntityKind::NoDuplicateAttr.code() == 411,
            EntityKind::CudaConstantAttr.code() == 412,
            EntityKind::CudaDeviceAttr.code() == 413,
            EntityKind::CudaGlobalAttr.code() == 414,
            EntityKind::CudaHostAttr.code() == 415,
            EntityKind::CudaSharedAttr.code() == 416,
            EntityKind::VisibilityAttr.code() == 417,
            EntityKind::DllExport.code() == 418,
            EntityKind::DllImport.code() == 419,
            EntityKind::NSReturnsRetained.code() == 420,
            EntityKind::NSReturnsNotRetained.code() == 421,
            EntityKind::NSReturnsAutoreleased.code() == 422,
            EntityKind::NSConsumesSelf.code() == 423,
            EntityKind::NSConsumed.code() == 424,
            EntityKind::ObjCException.code() == 425,
            EntityKind::ObjCNSObject.code() == 426,
            EntityKind::ObjCIndependentClass.code() == 427,
            EntityKind::ObjCPreciseLifetime.code() == 428,
            EntityKind::ObjCReturnsInnerPointer.code() == 429,
            EntityKind::ObjCRequiresSuper.code() == 430,
            EntityKind::ObjCRootClass.code() == 431,
            EntityKind::ObjCSubclassingRestricted.code() == 432,
            EntityKind::ObjCExplicitProtocolImpl.code() == 433,
            EntityKind::ObjCDesignatedInitializer.code() == 434,
            EntityKind::ObjCRuntimeVisible.code() == 435,
            EntityKind::ObjCBoxable.code() == 436,
            EntityKind::FlagEnum.code() == 437,
            EntityKind::ConvergentAttr.code() == 438,
            EntityKind::WarnUnusedAttr.code() == 439,
            EntityKind::WarnUnusedResultAttr.code() == 440,
            EntityKind::AlignedAttr.code() == 441,
            EntityKind::PreprocessingDirective.code() == 500,
            EntityKind::MacroDefinition.code() == 501,
            EntityKind::MacroExpansion.code() == 502,
            EntityKind::InclusionDirective.code() == 503,
            EntityKind::ModuleImportDecl.code() == 600,
            EntityKind::TypeAliasTemplateDecl.code() == 601,
            EntityKind::StaticAssert.code() == 602,
            EntityKind::FriendDecl.code() == 603,
            EntityKind::OverloadCandidate.code() == 700,
    {
    }
}

impl EntityVisitResult {
    /// Each variant stands for libclang's value of the same name: the values libclang's C
    /// interface gives them.
    pub proof fn lemma_libclang_values()
        ensures
            EntityVisitResult::Break.code() == 0,
            EntityVisitResult::Continue.code() == 1,
            EntityVisitResult::Recurse.code() == 2,
    {
    }
}

impl ExceptionSpecification {
    /// Each variant stands for libclang's value of the same name: the values libclang's C
    /// interface gives them.
    pub proof fn lemma_libclang_values()
        ensures
            ExceptionSpecification::BasicNoexcept.code() == 4,
            ExceptionSpecification::ComputedNoexcept.code() == 5,
            ExceptionSpecification::Dynamic.code() == 2,
            ExceptionSpecification::DynamicAny.code() == 3,
            ExceptionSpecification::DynamicNone.code() == 1,
            ExceptionSpecification::Unevaluated.code() == 6,
            ExceptionSpecification::Uninstantiated.code() == 7,
            ExceptionSpecification::Unparsed.code() == 8,
            ExceptionSpecification::NoThrow.code() == 9,
    {
    }
}

impl Language {
    /// Each variant stands for libclang's value of the same name: the values libclang's C
    /// interface gives them.
    pub proof fn lemma_libclang_values()
        ensures
            Language::C.code() == 1,
            Language::Cpp.code() == 3,
            Language::ObjectiveC.code() == 2,
            Language::Swift.code() == 4,
    {
    }
}

impl Linkage {
    /// Each variant stands for libclang's value of the same name: the values libclang's C
    /// interface gives them.
    pub proof fn lemma_libclang_values()
        ensures
            Linkage::Automatic.code() == 1,
            Linkage::Internal.code() == 2,
            Linkage::External.code() == 4,
            Linkage::UniqueExternal.code() == 3,
    {
    }
}

impl MemoryUsage {
    /// Each variant stands for libclang's value of the same name: the values libclang's C
    /// interface gives them.
    pub proof fn lemma_libclang_values()
        ensures
            MemoryUsage::Ast.code() == 1,
            MemoryUsage::AstSideTables.code() == 6,
            MemoryUsage::ExternalAstSourceMalloc.code() == 9,
            MemoryUsage::ExternalAstSourceMMap.code() == 10,
            MemoryUsage::GlobalCodeCompletionResults.code() == 4,
            MemoryUsage::Identifiers.code() == 2,
            MemoryUsage::PreprocessingRecord.code() == 12,
            MemoryUsage::Preprocessor.code() == 11,
            MemoryUsage::PreprocessorHeaderSearch.code() == 14,
            MemoryUsage::Selectors.code() == 3,
            MemoryUsage::SourceManagerContentCache.code() == 5,
            MemoryUsage::SourceManagerDataStructures.code() == 13,
            MemoryUsage::SourceManagerMalloc.code() == 7,
            MemoryUsage::SourceManagerMMap.code() == 8,
    {
    }
}

impl Nullability {
    /// Each variant stands for libclang's value of the same name: the values libclang's C
    /// interface gives them.
    pub proof fn lemma_libclang_values()
        ensures
            Nullability::NonNull.code() == 0,
            Nullability::Nullable.code() == 1,
            Nullability::Unspecified.code() == 2,
    {
    }
}

impl PrintingPolicyFlag {
    /// Each variant stands for libclang's value of the same name: the values libclang's C
    /// interface gives them.
    pub proof fn lemma_libclang_values()
        ensures
            PrintingPolicyFlag::SuppressSpecifiers.code() == 1,
            PrintingPolicyFlag::SuppressTagKeyword.code() == 2,
            PrintingPolicyFlag::IncludeTagDefinition.code() == 3,
            PrintingPolicyFlag::SuppressScope.code() == 4,
            PrintingPolicyFlag::SuppressUnwrittenScope.code() == 5,
            PrintingPolicyFlag::SuppressInitializers.code() == 6,
            PrintingPolicyFlag::PrintConstantArraySizeAsWritten.code() == 7,
            PrintingPolicyFlag::PrintAnonymousTagLocations.code() == 8,
            PrintingPolicyFlag::SuppressStrongLifetime.code() == 9,
            PrintingPolicyFlag::SuppressLifetimeQualifiers.code() == 10,
            PrintingPolicyFlag::SuppressTemplateArgsInCXXConstructors.code() == 11,
            PrintingPolicyFlag::UseBool.code() == 12,
            PrintingPolicyFlag::UseRestrict.code() == 13,
            PrintingPolicyFlag::UseAlignof.code() == 14,
            PrintingPolicyFlag::UseUnderscoreAlignof.code() == 15,
            PrintingPolicyFlag::UseVoidForZeroParams.code() == 16,
            PrintingPolicyFlag::UseTerseOutput.code() == 17,
            PrintingPolicyFlag::PolishForDeclaration.code() == 18,
            PrintingPolicyFlag::UseHalf.code() == 19,
            PrintingPolicyFlag::UseMsWchar.code() == 20,
            PrintingPolicyFlag::IncludeNewlines.code() == 21,
            PrintingPolicyFlag::UseMsvcFormatting.code() == 22,
            PrintingPolicyFlag::PrintConstantsAsWritten.code() == 23,
            PrintingPolicyFlag::SuppressImplicitBase.code() == 24,
            PrintingPolicyFlag::PrintFullyQualifiedName.code() == 25,
    {
    }
}

impl RefQualifier {
    /// Each variant stands for libclang's value of the same name: the values libclang's C
    /// interface gives them.
    pub proof fn lemma_libclang_values()
        ensures
            RefQualifier::LValue.code() == 1,
            RefQualifier::RValue.code() == 2,
    {
    }
}

impl StorageClass {
    /// Each variant stands for libclang's value of the same name: the values libclang's C
    /// interface gives them.
    pub proof fn lemma_libclang_values()
        ensures
            StorageClass::Unspecified.code() == 1,
            StorageClass::Auto.code() == 6,
            StorageClass::Register.code() == 7,
            StorageClass::Static.code() == 3,
            StorageClass::Extern.code() == 2,
            StorageClass::PrivateExtern.code() == 4,
            StorageClass::OpenClWorkGroupLocal.code() == 5,
    {
    }
}

impl TlsKind {
    /// Each variant stands for libclang's value of the same name: the values libclang's C
    /// interface gives them.
    pub proof fn lemma_libclang_values()
        ensures
            TlsKind::Dynamic.code() == 1,
            TlsKind::Static.code() == 2,
    {
    }
}

impl TypeKind {
    /// Each variant stands for libclang's value of the same name: the values libclang's C
    /// interface gives them.
    pub proof fn lemma_libclang_values()
        ensures
            TypeKind::Unexposed.code() == 1,
            TypeKind::Void.code() == 2,
            TypeKind::Bool.code() == 3,
            TypeKind::CharS.code() == 13,
            TypeKind::CharU.code() == 4,
            TypeKind::SChar.code() == 14,
            TypeKind::UChar.code() == 5,
            TypeKind::WChar.code() == 15,
            TypeKind::Char16.code() == 6,
            TypeKind::Char32.code() == 7,
            TypeKind::Short.code() == 16,
            TypeKind::UShort.code() == 8,
            TypeKind::Int.code() == 17,
            TypeKind::UInt.code() == 9,
            TypeKind::Long.code() == 18,
            TypeKind::ULong.code() == 10,
            TypeKind::LongLong.code() == 19,
            TypeKind::ULongLong.code() == 11,
            TypeKind::Int128.code() == 20,
            TypeKind::UInt128.code() == 12,
            TypeKind::Half.code() == 31,
            TypeKind::Float16.code() == 32,
            TypeKind::ShortAccum.code() == 33,
            TypeKind::Accum.code() == 34,
            TypeKind::LongAccum.code() == 35,
            TypeKind::UShortAccum.code() == 36,
            TypeKind::UAccum.code() == 37,
            TypeKind::ULongAccum.code() == 38,
            TypeKind::Float.code() == 21,
            TypeKind::Double.code() == 22,
            TypeKind::LongDouble.code() == 23,
            TypeKind::Nullptr.code() == 24,
            TypeKind::Complex.code() == 100,
            TypeKind::Dependent.code() == 26,
            TypeKind::Overload.code() == 25,
            TypeKind::ObjCId.code() == 27,
            TypeKind::ObjCClass.code() == 28,
            TypeKind::ObjCSel.code() == 29,
            TypeKind::Float128.code() == 30,
            TypeKind::ObjCInterface.code() == 108,
            TypeKind::ObjCObjectPointer.code() == 109,
            TypeKind::Pointer.code() == 101,
            TypeKind::BlockPointer.code() == 102,
            TypeKind::MemberPointer.code() == 117,
            TypeKind::LValueReference.code() == 103,
            TypeKind::RValueReference.code() == 104,
            TypeKind::Enum.code() == 106,
            TypeKind::Record.code() == 105,
            TypeKind::Typedef.code() == 107,
            TypeKind::FunctionPrototype.code() == 111,
            TypeKind::FunctionNoPrototype.code() == 110,
            TypeKind::ConstantArray.code() == 112,
            TypeKind::DependentSizedArray.code() == 116,
            TypeKind::IncompleteArray.code() == 114,
            TypeKind::VariableArray.code() == 115,
            TypeKind::Vector.code() == 113,
            TypeKind::Auto.code() == 118,
            TypeKind::Elaborated.code() == 119,
            TypeKind::Pipe.code() == 120,
            TypeKind::OCLImage1dRO.code() == 121,
            TypeKind::OCLImage1dArrayRO.code() == 122,
            TypeKind::OCLImage1dBufferRO.code() == 123,
            TypeKind::OCLImage2dRO.code() == 124,
            TypeKind::OCLImage2dArrayRO.code() == 125,
            TypeKind::OCLImage2dDepthRO.code() == 126,
            TypeKind::OCLImage2dArrayDepthRO.code() == 127,
            TypeKind::OCLImage2dMSAARO.code() == 128,
            TypeKind::OCLImage2dArrayMSAARO.code() == 129,
            TypeKind::OCLImage2dMSAADepthRO.code() == 130,
            TypeKind::OCLImage2dArrayMSAADepthRO.code() == 131,
            TypeKind::OCLImage3dRO.code() == 132,
            TypeKind::OCLImage1dWO.code() == 133,
            TypeKind::OCLImage1dArrayWO.code() == 134,
            TypeKind::OCLImage1dBufferWO.code() == 135,
            TypeKind::OCLImage2dWO.code() == 136,
            TypeKind::OCLImage2dArrayWO.code() == 137,
            TypeKind::OCLImage2dDepthWO.code() == 138,
            TypeKind::OCLImage2dArrayDepthWO.code() == 139,
            TypeKind::OCLImage2dMSAAWO.code() == 140,
            TypeKind::OCLImage2dArrayMSAAWO.code() == 141,
            TypeKind::OCLImage2dMSAADepthWO.code() == 142,
            TypeKind::OCLImage2dArrayMSAADepthWO.code() == 143,
            TypeKind::OCLImage3dWO.code() == 144,
            TypeKind::OCLImage1dRW.code() == 145,
            TypeKind::OCLImage1dArrayRW.code() == 146,
            TypeKind::OCLImage1dBufferRW.code() == 147,
            TypeKind::OCLImage2dRW.code() == 148,
            TypeKind::OCLImage2dArrayRW.code() == 149,
            TypeKind::OCLImage2dDepthRW.code() == 150,
            TypeKind::OCLImage2dArrayDepthRW.code() == 151,
            TypeKind::OCLImage2dMSAARW.code() == 152,
            TypeKind::OCLImage2dArrayMSAARW.code() == 153,
            TypeKind::OCLImage2dMSAADepthRW.code() == 154,
            TypeKind::OCLImage2dArrayMSAADepthRW.code() == 155,
            TypeKind::OCLImage3dRW.code() == 156,
            TypeKind::OCLSampler.code() == 157,
            TypeKind::OCLEvent.code() == 158,
            TypeKind::OCLQueue.code() == 159,
            TypeKind::OCLReserveID.code() == 160,
            TypeKind::ObjCObject.code() == 161,
            TypeKind::ObjCTypeParam.code() == 162,
            TypeKind::Attributed.code() == 163,
            TypeKind::OCLIntelSubgroupAVCMcePayload.code() == 164,
            TypeKind::OCLIntelSubgroupAVCImePayload.code() == 165,
            TypeKind::OCLIntelSubgroupAVCRefPayload.code() == 166,
            TypeKind::OCLIntelSubgroupAVCSicPayload.code() == 167,
            TypeKind::OCLIntelSubgroupAVCMceResult.code() == 168,
            TypeKind::OCLIntelSubgroupAVCImeResult.code() == 169,
            TypeKind::OCLIntelSubgroupAVCRefResult.code() == 170,
            TypeKind::OCLIntelSubgroupAVCSicResult.code() == 171,
            TypeKind::OCLIntelSubgroupAVCImeResultSingleRefStreamout.code() == 172,
            TypeKind::OCLIntelSubgroupAVCImeResultDualRefStreamout.code() == 173,
            TypeKind::OCLIntelSubgroupAVCImeSingleRefStreamin.code() == 174,
            TypeKind::OCLIntelSubgroupAVCImeDualRefStreamin.code() == 175,
            TypeKind::ExtVector.code() == 176,
    {
    }
}

impl Visibility {
    /// Each variant stands for libclang's value of the same name: the values libclang's C
    /// interface gives them.
    pub proof fn lemma_libclang_values()
        ensures
            Visibility::Default.code() == 3,
            Visibility::Hidden.code() == 1,
            Visibility::Protected.code() == 2,
    {
    }
}

} // verus!
