//! The enumerations of the libclang C interface, each value named.

use vstd::prelude::*;

verus! {

/// The `CXAvailabilityKind` values of the libclang C interface.
#[derive(Copy, Clone, Debug, PartialEq, Eq, Hash, Structural)]
pub enum CXAvailabilityKind {
    Available,
    Deprecated,
    NotAvailable,
    NotAccessible,
}

impl CXAvailabilityKind {
    /// The value libclang uses for this value.
    pub open spec fn code(self) -> int {
        match self {
            CXAvailabilityKind::Available => 0,
            CXAvailabilityKind::Deprecated => 1,
            CXAvailabilityKind::NotAvailable => 2,
            CXAvailabilityKind::NotAccessible => 3,
        }
    }

    /// Returns the value libclang uses for this value.
    pub fn to_raw(self) -> (raw: i32)
        ensures
            raw == self.code(),
    {
        match self {
            CXAvailabilityKind::Available => 0,
            CXAvailabilityKind::Deprecated => 1,
            CXAvailabilityKind::NotAvailable => 2,
            CXAvailabilityKind::NotAccessible => 3,
        }
    }

    /// Whether `raw` is one of the values that `from_raw` recognises.
    pub open spec fn is_code(raw: int) -> bool {
        0 <= raw <= 3
    }

    /// Returns the value that libclang denotes by `raw`, if `raw` is a recognised value.
    pub fn from_raw(raw: i32) -> (result: Option<Self>)
        ensures
            result is Some <==> Self::is_code(raw as int),
            result matches Some(k) ==> k.code() == raw,
    {
        match raw {
            0 => Some(CXAvailabilityKind::Available),
            1 => Some(CXAvailabilityKind::Deprecated),
            2 => Some(CXAvailabilityKind::NotAvailable),
            3 => Some(CXAvailabilityKind::NotAccessible),
            _ => None,
        }
    }

    spec fn decode(raw: int) -> Option<Self> {
        if raw == 0 {
            Some(CXAvailabilityKind::Available)
        } else if raw == 1 {
            Some(CXAvailabilityKind::Deprecated)
        } else if raw == 2 {
            Some(CXAvailabilityKind::NotAvailable)
        } else if raw == 3 {
            Some(CXAvailabilityKind::NotAccessible)
        } else {
            None
        }
    }

    proof fn lemma_decode(self)
        ensures
            Self::decode(self.code()) == Some(self),
    {
        match self {
            CXAvailabilityKind::Available => {},
            CXAvailabilityKind::Deprecated => {},
            CXAvailabilityKind::NotAvailable => {},
            CXAvailabilityKind::NotAccessible => {},
        }
    }

    /// No two variants share a value; every variant's value is recognised by `from_raw`.
    pub proof fn lemma_code(self, other: Self)
        ensures
            self.code() == other.code() ==> self == other,
            Self::is_code(self.code()),
    {
        self.lemma_decode();
        other.lemma_decode();
    }
}

/// The `CXCallingConv` values of the libclang C interface.
#[derive(Copy, Clone, Debug, PartialEq, Eq, Hash, Structural)]
pub enum CXCallingConv {
    Default,
    C,
    X86StdCall,
    X86FastCall,
    X86ThisCall,
    X86Pascal,
    AAPCS,
    AAPCS_VFP,
    IntelOclBicc,
    X86_64Win64,
    X86_64SysV,
    X86VectorCall,
    Invalid,
    Unexposed,
}

impl CXCallingConv {
    /// The value libclang uses for this value.
    pub open spec fn code(self) -> int {
        match self {
            CXCallingConv::Default => 0,
            CXCallingConv::C => 1,
            CXCallingConv::X86StdCall => 2,
            CXCallingConv::X86FastCall => 3,
            CXCallingConv::X86ThisCall => 4,
            CXCallingConv::X86Pascal => 5,
            CXCallingConv::AAPCS => 6,
            CXCallingConv::AAPCS_VFP => 7,
            CXCallingConv::IntelOclBicc => 9,
            CXCallingConv::X86_64Win64 => 10,
            CXCallingConv::X86_64SysV => 11,
            CXCallingConv::X86VectorCall => 12,
            CXCallingConv::Invalid => 100,
            CXCallingConv::Unexposed => 200,
        }
    }

    /// Returns the value libclang uses for this value.
    pub fn to_raw(self) -> (raw: i32)
        ensures
            raw == self.code(),
    {
        match self {
            CXCallingConv::Default => 0,
            CXCallingConv::C => 1,
            CXCallingConv::X86StdCall => 2,
            CXCallingConv::X86FastCall => 3,
            CXCallingConv::X86ThisCall => 4,
            CXCallingConv::X86Pascal => 5,
            CXCallingConv::AAPCS => 6,
            CXCallingConv::AAPCS_VFP => 7,
            CXCallingConv::IntelOclBicc => 9,
            CXCallingConv::X86_64Win64 => 10,
            CXCallingConv::X86_64SysV => 11,
            CXCallingConv::X86VectorCall => 12,
            CXCallingConv::Invalid => 100,
            CXCallingConv::Unexposed => 200,
        }
    }

    /// Whether `raw` is one of the values that `from_raw` recognises.
    pub open spec fn is_code(raw: int) -> bool {
        ||| 0 <= raw <= 7
        ||| 9 <= raw <= 12
        ||| raw == 100
        ||| raw == 200
    }

    /// Returns the value that libclang denotes by `raw`, if `raw` is a recognised value.
    pub fn from_raw(raw: i32) -> (result: Option<Self>)
        ensures
            result is Some <==> Self::is_code(raw as int),
            result matches Some(k) ==> k.code() == raw,
    {
        match raw {
            0 => Some(CXCallingConv::Default),
            1 => Some(CXCallingConv::C),
            2 => Some(CXCallingConv::X86StdCall),
            3 => Some(CXCallingConv::X86FastCall),
            4 => Some(CXCallingConv::X86ThisCall),
            5 => Some(CXCallingConv::X86Pascal),
            6 => Some(CXCallingConv::AAPCS),
            7 => Some(CXCallingConv::AAPCS_VFP),
            9 => Some(CXCallingConv::IntelOclBicc),
            10 => Some(CXCallingConv::X86_64Win64),
            11 => Some(CXCallingConv::X86_64SysV),
            12 => Some(CXCallingConv::X86VectorCall),
            100 => Some(CXCallingConv::Invalid),
            200 => Some(CXCallingConv::Unexposed),
            _ => None,
        }
    }

    spec fn decode(raw: int) -> Option<Self> {
        if raw == 0 {
            Some(CXCallingConv::Default)
        } else if raw == 1 {
            Some(CXCallingConv::C)
        } else if raw == 2 {
            Some(CXCallingConv::X86StdCall)
        } else if raw == 3 {
            Some(CXCallingConv::X86FastCall)
        } else if raw == 4 {
            Some(CXCallingConv::X86ThisCall)
        } else if raw == 5 {
            Some(CXCallingConv::X86Pascal)
        } else if raw == 6 {
            Some(CXCallingConv::AAPCS)
        } else if raw == 7 {
            Some(CXCallingConv::AAPCS_VFP)
        } else if raw == 9 {
            Some(CXCallingConv::IntelOclBicc)
        } else if raw == 10 {
            Some(CXCallingConv::X86_64Win64)
        } else if raw == 11 {
            Some(CXCallingConv::X86_64SysV)
        } else if raw == 12 {
            Some(CXCallingConv::X86VectorCall)
        } else if raw == 100 {
            Some(CXCallingConv::Invalid)
        } else if raw == 200 {
            Some(CXCallingConv::Unexposed)
        } else {
            None
        }
    }

    proof fn lemma_decode(self)
        ensures
            Self::decode(self.code()) == Some(self),
    {
        match self {
            CXCallingConv::Default => {},
            CXCallingConv::C => {},
            CXCallingConv::X86StdCall => {},
            CXCallingConv::X86FastCall => {},
            CXCallingConv::X86ThisCall => {},
            CXCallingConv::X86Pascal => {},
            CXCallingConv::AAPCS => {},
            CXCallingConv::AAPCS_VFP => {},
            CXCallingConv::IntelOclBicc => {},
            CXCallingConv::X86_64Win64 => {},
            CXCallingConv::X86_64SysV => {},
            CXCallingConv::X86VectorCall => {},
            CXCallingConv::Invalid => {},
            CXCallingConv::Unexposed => {},
        }
    }

    /// No two variants share a value; every variant's value is recognised by `from_raw`.
    pub proof fn lemma_code(self, other: Self)
        ensures
            self.code() == other.code() ==> self == other,
            Self::is_code(self.code()),
    {
        self.lemma_decode();
        other.lemma_decode();
    }
}

/// The `CXChildVisitResult` values of the libclang C interface.
#[derive(Copy, Clone, Debug, PartialEq, Eq, Hash, Structural)]
pub enum CXChildVisitResult {
    Break,
    Continue,
    Recurse,
}

impl CXChildVisitResult {
    /// The value libclang uses for this value.
    pub open spec fn code(self) -> int {
        match self {
            CXChildVisitResult::Break => 0,
            CXChildVisitResult::Continue => 1,
            CXChildVisitResult::Recurse => 2,
        }
    }

    /// Returns the value libclang uses for this value.
    pub fn to_raw(self) -> (raw: i32)
        ensures
            raw == self.code(),
    {
        match self {
            CXChildVisitResult::Break => 0,
            CXChildVisitResult::Continue => 1,
            CXChildVisitResult::Recurse => 2,
        }
    }

    /// Whether `raw` is one of the values that `from_raw` recognises.
    pub open spec fn is_code(raw: int) -> bool {
        0 <= raw <= 2
    }

    /// Returns the value that libclang denotes by `raw`, if `raw` is a recognised value.
    pub fn from_raw(raw: i32) -> (result: Option<Self>)
        ensures
            result is Some <==> Self::is_code(raw as int),
            result matches Some(k) ==> k.code() == raw,
    {
        match raw {
            0 => Some(CXChildVisitResult::Break),
            1 => Some(CXChildVisitResult::Continue),
            2 => Some(CXChildVisitResult::Recurse),
            _ => None,
        }
    }

    spec fn decode(raw: int) -> Option<Self> {
        if raw == 0 {
            Some(CXChildVisitResult::Break)
        } else if raw == 1 {
            Some(CXChildVisitResult::Continue)
        } else if raw == 2 {
            Some(CXChildVisitResult::Recurse)
        } else {
            None
        }
    }

    proof fn lemma_decode(self)
        ensures
            Self::decode(self.code()) == Some(self),
    {
        match self {
            CXChildVisitResult::Break => {},
            CXChildVisitResult::Continue => {},
            CXChildVisitResult::Recurse => {},
        }
    }

    /// No two variants share a value; every variant's value is recognised by `from_raw`.
    pub proof fn lemma_code(self, other: Self)
        ensures
            self.code() == other.code() ==> self == other,
            Self::is_code(self.code()),
    {
        self.lemma_decode();
        other.lemma_decode();
    }
}

/// The `CXCompilationDatabase_Error` values of the libclang C interface.
#[derive(Copy, Clone, Debug, PartialEq, Eq, Hash, Structural)]
pub enum CXCompilationDatabase_Error {
    NoError,
    CanNotLoadDatabase,
}

impl CXCompilationDatabase_Error {
    /// The value libclang uses for this value.
    pub open spec fn code(self) -> int {
        match self {
            CXCompilationDatabase_Error::NoError => 0,
            CXCompilationDatabase_Error::CanNotLoadDatabase => 1,
        }
    }

    /// Returns the value libclang uses for this value.
    pub fn to_raw(self) -> (raw: i32)
        ensures
            raw == self.code(),
    {
        match self {
            CXCompilationDatabase_Error::NoError => 0,
            CXCompilationDatabase_Error::CanNotLoadDatabase => 1,
        }
    }

    /// Whether `raw` is one of the values that `from_raw` recognises.
    pub open spec fn is_code(raw: int) -> bool {
        0 <= raw <= 1
    }

    /// Returns the value that libclang denotes by `raw`, if `raw` is a recognised value.
    pub fn from_raw(raw: i32) -> (result: Option<Self>)
        ensures
            result is Some <==> Self::is_code(raw as int),
            result matches Some(k) ==> k.code() == raw,
    {
        match raw {
            0 => Some(CXCompilationDatabase_Error::NoError),
            1 => Some(CXCompilationDatabase_Error::CanNotLoadDatabase),
            _ => None,
        }
    }

    spec fn decode(raw: int) -> Option<Self> {
        if raw == 0 {
            Some(CXCompilationDatabase_Error::NoError)
        } else if raw == 1 {
            Some(CXCompilationDatabase_Error::CanNotLoadDatabase)
        } else {
            None
        }
    }

    proof fn lemma_decode(self)
        ensures
            Self::decode(self.code()) == Some(self),
    {
        match self {
            CXCompilationDatabase_Error::NoError => {},
            CXCompilationDatabase_Error::CanNotLoadDatabase => {},
        }
    }

    /// No two variants share a value; every variant's value is recognised by `from_raw`.
    pub proof fn lemma_code(self, other: Self)
        ensures
            self.code() == other.code() ==> self == other,
            Self::is_code(self.code()),
    {
        self.lemma_decode();
        other.lemma_decode();
    }
}

/// The `CXCompletionChunkKind` values of the libclang C interface.
#[derive(Copy, Clone, Debug, PartialEq, Eq, Hash, Structural)]
pub enum CXCompletionChunkKind {
    Optional,
    TypedText,
    Text,
    Placeholder,
    Informative,
    CurrentParameter,
    LeftParen,
    RightParen,
    LeftBracket,
    RightBracket,
    LeftBrace,
    RightBrace,
    LeftAngle,
    RightAngle,
    Comma,
    ResultType,
    Colon,
    SemiColon,
    Equal,
    HorizontalSpace,
    VerticalSpace,
}

impl CXCompletionChunkKind {
    /// The value libclang uses for this value.
    pub open spec fn code(self) -> int {
        match self {
            CXCompletionChunkKind::Optional => 0,
            CXCompletionChunkKind::TypedText => 1,
            CXCompletionChunkKind::Text => 2,
            CXCompletionChunkKind::Placeholder => 3,
            CXCompletionChunkKind::Informative => 4,
            CXCompletionChunkKind::CurrentParameter => 5,
            CXCompletionChunkKind::LeftParen => 6,
            CXCompletionChunkKind::RightParen => 7,
            CXCompletionChunkKind::LeftBracket => 8,
            CXCompletionChunkKind::RightBracket => 9,
            CXCompletionChunkKind::LeftBrace => 10,
            CXCompletionChunkKind::RightBrace => 11,
            CXCompletionChunkKind::LeftAngle => 12,
            CXCompletionChunkKind::RightAngle => 13,
            CXCompletionChunkKind::Comma => 14,
            CXCompletionChunkKind::ResultType => 15,
            CXCompletionChunkKind::Colon => 16,
            CXCompletionChunkKind::SemiColon => 17,
            CXCompletionChunkKind::Equal => 18,
            CXCompletionChunkKind::HorizontalSpace => 19,
            CXCompletionChunkKind::VerticalSpace => 20,
        }
    }

    /// Returns the value libclang uses for this value.
    pub fn to_raw(self) -> (raw: i32)
        ensures
            raw == self.code(),
    {
        match self {
            CXCompletionChunkKind::Optional => 0,
            CXCompletionChunkKind::TypedText => 1,
            CXCompletionChunkKind::Text => 2,
            CXCompletionChunkKind::Placeholder => 3,
            CXCompletionChunkKind::Informative => 4,
            CXCompletionChunkKind::CurrentParameter => 5,
            CXCompletionChunkKind::LeftParen => 6,
            CXCompletionChunkKind::RightParen => 7,
            CXCompletionChunkKind::LeftBracket => 8,
            CXCompletionChunkKind::RightBracket => 9,
            CXCompletionChunkKind::LeftBrace => 10,
            CXCompletionChunkKind::RightBrace => 11,
            CXCompletionChunkKind::LeftAngle => 12,
            CXCompletionChunkKind::RightAngle => 13,
            CXCompletionChunkKind::Comma => 14,
            CXCompletionChunkKind::ResultType => 15,
            CXCompletionChunkKind::Colon => 16,
            CXCompletionChunkKind::SemiColon => 17,
            CXCompletionChunkKind::Equal => 18,
            CXCompletionChunkKind::HorizontalSpace => 19,
            CXCompletionChunkKind::VerticalSpace => 20,
        }
    }

    /// Whether `raw` is one of the values that `from_raw` recognises.
    pub open spec fn is_code(raw: int) -> bool {
        0 <= raw <= 20
    }

    /// Returns the value that libclang denotes by `raw`, if `raw` is a recognised value.
    pub fn from_raw(raw: i32) -> (result: Option<Self>)
        ensures
            result is Some <==> Self::is_code(raw as int),
            result matches Some(k) ==> k.code() == raw,
    {
        match raw {
            0 => Some(CXCompletionChunkKind::Optional),
            1 => Some(CXCompletionChunkKind::TypedText),
            2 => Some(CXCompletionChunkKind::Text),
            3 => Some(CXCompletionChunkKind::Placeholder),
            4 => Some(CXCompletionChunkKind::Informative),
            5 => Some(CXCompletionChunkKind::CurrentParameter),
            6 => Some(CXCompletionChunkKind::LeftParen),
            7 => Some(CXCompletionChunkKind::RightParen),
            8 => Some(CXCompletionChunkKind::LeftBracket),
            9 => Some(CXCompletionChunkKind::RightBracket),
            10 => Some(CXCompletionChunkKind::LeftBrace),
            11 => Some(CXCompletionChunkKind::RightBrace),
            12 => Some(CXCompletionChunkKind::LeftAngle),
            13 => Some(CXCompletionChunkKind::RightAngle),
            14 => Some(CXCompletionChunkKind::Comma),
            15 => Some(CXCompletionChunkKind::ResultType),
            16 => Some(CXCompletionChunkKind::Colon),
            17 => Some(CXCompletionChunkKind::SemiColon),
            18 => Some(CXCompletionChunkKind::Equal),
            19 => Some(CXCompletionChunkKind::HorizontalSpace),
            20 => Some(CXCompletionChunkKind::VerticalSpace),
            _ => None,
        }
    }

    spec fn decode(raw: int) -> Option<Self> {
        if raw == 0 {
            Some(CXCompletionChunkKind::Optional)
        } else if raw == 1 {
            Some(CXCompletionChunkKind::TypedText)
        } else if raw == 2 {
            Some(CXCompletionChunkKind::Text)
        } else if raw == 3 {
            Some(CXCompletionChunkKind::Placeholder)
        } else if raw == 4 {
            Some(CXCompletionChunkKind::Informative)
        } else if raw == 5 {
            Some(CXCompletionChunkKind::CurrentParameter)
        } else if raw == 6 {
            Some(CXCompletionChunkKind::LeftParen)
        } else if raw == 7 {
            Some(CXCompletionChunkKind::RightParen)
        } else if raw == 8 {
            Some(CXCompletionChunkKind::LeftBracket)
        } else if raw == 9 {
            Some(CXCompletionChunkKind::RightBracket)
        } else if raw == 10 {
            Some(CXCompletionChunkKind::LeftBrace)
        } else if raw == 11 {
            Some(CXCompletionChunkKind::RightBrace)
        } else if raw == 12 {
            Some(CXCompletionChunkKind::LeftAngle)
        } else if raw == 13 {
            Some(CXCompletionChunkKind::RightAngle)
        } else if raw == 14 {
            Some(CXCompletionChunkKind::Comma)
        } else if raw == 15 {
            Some(CXCompletionChunkKind::ResultType)
        } else if raw == 16 {
            Some(CXCompletionChunkKind::Colon)
        } else if raw == 17 {
            Some(CXCompletionChunkKind::SemiColon)
        } else if raw == 18 {
            Some(CXCompletionChunkKind::Equal)
        } else if raw == 19 {
            Some(CXCompletionChunkKind::HorizontalSpace)
        } else if raw == 20 {
            Some(CXCompletionChunkKind::VerticalSpace)
        } else {
            None
        }
    }

    proof fn lemma_decode(self)
        ensures
            Self::decode(self.code()) == Some(self),
    {
        match self {
            CXCompletionChunkKind::Optional => {},
            CXCompletionChunkKind::TypedText => {},
            CXCompletionChunkKind::Text => {},
            CXCompletionChunkKind::Placeholder => {},
            CXCompletionChunkKind::Informative => {},
            CXCompletionChunkKind::CurrentParameter => {},
            CXCompletionChunkKind::LeftParen => {},
            CXCompletionChunkKind::RightParen => {},
            CXCompletionChunkKind::LeftBracket => {},
            CXCompletionChunkKind::RightBracket => {},
            CXCompletionChunkKind::LeftBrace => {},
            CXCompletionChunkKind::RightBrace => {},
            CXCompletionChunkKind::LeftAngle => {},
            CXCompletionChunkKind::RightAngle => {},
            CXCompletionChunkKind::Comma => {},
            CXCompletionChunkKind::ResultType => {},
            CXCompletionChunkKind::Colon => {},
            CXCompletionChunkKind::SemiColon => {},
            CXCompletionChunkKind::Equal => {},
            CXCompletionChunkKind::HorizontalSpace => {},
            CXCompletionChunkKind::VerticalSpace => {},
        }
    }

    /// No two variants share a value; every variant's value is recognised by `from_raw`.
    pub proof fn lemma_code(self, other: Self)
        ensures
            self.code() == other.code() ==> self == other,
            Self::is_code(self.code()),
    {
        self.lemma_decode();
        other.lemma_decode();
    }
}

/// The `CXCursorKind` values of the libclang C interface.
#[derive(Copy, Clone, Debug, PartialEq, Eq, Hash, Structural)]
pub enum CXCursorKind {
    UnexposedDecl,
    StructDecl,
    UnionDecl,
    ClassDecl,
    EnumDecl,
    FieldDecl,
    EnumConstantDecl,
    FunctionDecl,
    VarDecl,
    ParmDecl,
    ObjCInterfaceDecl,
    ObjCCategoryDecl,
    ObjCProtocolDecl,
    ObjCPropertyDecl,
    ObjCIvarDecl,
    ObjCInstanceMethodDecl,
    ObjCClassMethodDecl,
    ObjCImplementationDecl,
    ObjCCategoryImplDecl,
    TypedefDecl,
    CXXMethod,
    Namespace,
    LinkageSpec,
    Constructor,
    Destructor,
    ConversionFunction,
    TemplateTypeParameter,
    NonTypeTemplateParameter,
    TemplateTemplateParameter,
    FunctionTemplate,
    ClassTemplate,
    ClassTemplatePartialSpecialization,
    NamespaceAlias,
    UsingDirective,
    UsingDeclaration,
    TypeAliasDecl,
    ObjCSynthesizeDecl,
    ObjCDynamicDecl,
    CXXAccessSpecifier,
    ObjCSuperClassRef,
    ObjCProtocolRef,
    ObjCClassRef,
    TypeRef,
    CXXBaseSpecifier,
    TemplateRef,
    NamespaceRef,
    MemberRef,
    LabelRef,
    OverloadedDeclRef,
    VariableRef,
    InvalidFile,
    NoDeclFound,
    NotImplemented,
    InvalidCode,
    UnexposedExpr,
    DeclRefExpr,
    MemberRefExpr,
    CallExpr,
    ObjCMessageExpr,
    BlockExpr,
    IntegerLiteral,
    FloatingLiteral,
    ImaginaryLiteral,
    StringLiteral,
    CharacterLiteral,
    ParenExpr,
    UnaryOperator,
    ArraySubscriptExpr,
    BinaryOperator,
    CompoundAssignOperator,
    ConditionalOperator,
    CStyleCastExpr,
    CompoundLiteralExpr,
    InitListExpr,
    AddrLabelExpr,
    StmtExpr,
    GenericSelectionExpr,
    GNUNullExpr,
    CXXStaticCastExpr,
    CXXDynamicCastExpr,
    CXXReinterpretCastExpr,
    CXXConstCastExpr,
    CXXFunctionalCastExpr,
    CXXTypeidExpr,
    CXXBoolLiteralExpr,
    CXXNullPtrLiteralExpr,
    CXXThisExpr,
    CXXThrowExpr,
    CXXNewExpr,
    CXXDeleteExpr,
    UnaryExpr,
    ObjCStringLiteral,
    ObjCEncodeExpr,
    ObjCSelectorExpr,
    ObjCProtocolExpr,
    ObjCBridgedCastExpr,
    PackExpansionExpr,
    SizeOfPackExpr,
    LambdaExpr,
    ObjCBoolLiteralExpr,
    ObjCSelfExpr,
    UnexposedStmt,
    LabelStmt,
    CompoundStmt,
    CaseStmt,
    DefaultStmt,
    IfStmt,
    SwitchStmt,
    WhileStmt,
    DoStmt,
    ForStmt,
    GotoStmt,
    IndirectGotoStmt,
    ContinueStmt,
    BreakStmt,
    ReturnStmt,
    /// Duplicate of `GccAsmStmt`.
    AsmStmt,
    ObjCAtTryStmt,
    ObjCAtCatchStmt,
    ObjCAtFinallyStmt,
    ObjCAtThrowStmt,
    ObjCAtSynchronizedStmt,
    ObjCAutoreleasePoolStmt,
    ObjCForCollectionStmt,
    CXXCatchStmt,
    CXXTryStmt,
    CXXForRangeStmt,
    SEHTryStmt,
    SEHExceptStmt,
    SEHFinallyStmt,
    MSAsmStmt,
    NullStmt,
    DeclStmt,
    OMPParallelDirective,
    OMPSimdDirective,
    OMPForDirective,
    OMPSectionsDirective,
    OMPSectionDirective,
    OMPSingleDirective,
    OMPParallelForDirective,
    OMPParallelSectionsDirective,
    OMPTaskDirective,
    OMPMasterDirective,
    OMPCriticalDirective,
    OMPTaskyieldDirective,
    OMPBarrierDirective,
    OMPTaskwaitDirective,
    OMPFlushDirective,
    SEHLeaveStmt,
    OMPOrderedDirective,
    OMPAtomicDirective,
    OMPForSimdDirective,
    OMPParallelForSimdDirective,
    OMPTargetDirective,
    OMPTeamsDirective,
    OMPTaskgroupDirective,
    OMPCancellationPointDirective,
    OMPCancelDirective,
    TranslationUnit,
    UnexposedAttr,
    IBActionAttr,
    IBOutletAttr,
    IBOutletCollectionAttr,
    CXXFinalAttr,
    CXXOverrideAttr,
    AnnotateAttr,
    AsmLabelAttr,
    PackedAttr,
    PureAttr,
    ConstAttr,
    NoDuplicateAttr,
    CUDAConstantAttr,
    CUDADeviceAttr,
    CUDAGlobalAttr,
    CUDAHostAttr,
    CUDASharedAttr,
    PreprocessingDirective,
    MacroDefinition,
    /// Duplicate of `MacroInstantiation`.
    MacroExpansion,
    InclusionDirective,
    ModuleImportDecl,
    OverloadCandidate,
}

impl CXCursorKind {
    /// The value libclang uses for this value.
    pub open spec fn code(self) -> int {
        match self {
            CXCursorKind::UnexposedDecl => 1,
            CXCursorKind::StructDecl => 2,
            CXCursorKind::UnionDecl => 3,
            CXCursorKind::ClassDecl => 4,
            CXCursorKind::EnumDecl => 5,
            CXCursorKind::FieldDecl => 6,
            CXCursorKind::EnumConstantDecl => 7,
            CXCursorKind::FunctionDecl => 8,
            CXCursorKind::VarDecl => 9,
            CXCursorKind::ParmDecl => 10,
            CXCursorKind::ObjCInterfaceDecl => 11,
            CXCursorKind::ObjCCategoryDecl => 12,
            CXCursorKind::ObjCProtocolDecl => 13,
            CXCursorKind::ObjCPropertyDecl => 14,
            CXCursorKind::ObjCIvarDecl => 15,
            CXCursorKind::ObjCInstanceMethodDecl => 16,
            CXCursorKind::ObjCClassMethodDecl => 17,
            CXCursorKind::ObjCImplementationDecl => 18,
            CXCursorKind::ObjCCategoryImplDecl => 19,
            CXCursorKind::TypedefDecl => 20,
            CXCursorKind::CXXMethod => 21,
            CXCursorKind::Namespace => 22,
            CXCursorKind::LinkageSpec => 23,
            CXCursorKind::Constructor => 24,
            CXCursorKind::Destructor => 25,
            CXCursorKind::ConversionFunction => 26,
            CXCursorKind::TemplateTypeParameter => 27,
            CXCursorKind::NonTypeTemplateParameter => 28,
            CXCursorKind::TemplateTemplateParameter => 29,
            CXCursorKind::FunctionTemplate => 30,
            CXCursorKind::ClassTemplate => 31,
            CXCursorKind::ClassTemplatePartialSpecialization => 32,
            CXCursorKind::NamespaceAlias => 33,
            CXCursorKind::UsingDirective => 34,
            CXCursorKind::UsingDeclaration => 35,
            CXCursorKind::TypeAliasDecl => 36,
            CXCursorKind::ObjCSynthesizeDecl => 37,
            CXCursorKind::ObjCDynamicDecl => 38,
            CXCursorKind::CXXAccessSpecifier => 39,
            CXCursorKind::ObjCSuperClassRef => 40,
            CXCursorKind::ObjCProtocolRef => 41,
            CXCursorKind::ObjCClassRef => 42,
            CXCursorKind::TypeRef => 43,
            CXCursorKind::CXXBaseSpecifier => 44,
            CXCursorKind::TemplateRef => 45,
            CXCursorKind::NamespaceRef => 46,
            CXCursorKind::MemberRef => 47,
            CXCursorKind::LabelRef => 48,
            CXCursorKind::OverloadedDeclRef => 49,
            CXCursorKind::VariableRef => 50,
            CXCursorKind::InvalidFile => 70,
            CXCursorKind::NoDeclFound => 71,
            CXCursorKind::NotImplemented => 72,
            CXCursorKind::InvalidCode => 73,
            CXCursorKind::UnexposedExpr => 100,
            CXCursorKind::DeclRefExpr => 101,
            CXCursorKind::MemberRefExpr => 102,
            CXCursorKind::CallExpr => 103,
            CXCursorKind::ObjCMessageExpr => 104,
            CXCursorKind::BlockExpr => 105,
            CXCursorKind::IntegerLiteral => 106,
            CXCursorKind::FloatingLiteral => 107,
            CXCursorKind::ImaginaryLiteral => 108,
            CXCursorKind::StringLiteral => 109,
            CXCursorKind::CharacterLiteral => 110,
            CXCursorKind::ParenExpr => 111,
            CXCursorKind::UnaryOperator => 112,
            CXCursorKind::ArraySubscriptExpr => 113,
            CXCursorKind::BinaryOperator => 114,
            CXCursorKind::CompoundAssignOperator => 115,
            CXCursorKind::ConditionalOperator => 116,
            CXCursorKind::CStyleCastExpr => 117,
            CXCursorKind::CompoundLiteralExpr => 118,
            CXCursorKind::InitListExpr => 119,
            CXCursorKind::AddrLabelExpr => 120,
            CXCursorKind::StmtExpr => 121,
            CXCursorKind::GenericSelectionExpr => 122,
            CXCursorKind::GNUNullExpr => 123,
            CXCursorKind::CXXStaticCastExpr => 124,
            CXCursorKind::CXXDynamicCastExpr => 125,
            CXCursorKind::CXXReinterpretCastExpr => 126,
            CXCursorKind::CXXConstCastExpr => 127,
            CXCursorKind::CXXFunctionalCastExpr => 128,
            CXCursorKind::CXXTypeidExpr => 129,
            CXCursorKind::CXXBoolLiteralExpr => 130,
            CXCursorKind::CXXNullPtrLiteralExpr => 131,
            CXCursorKind::CXXThisExpr => 132,
            CXCursorKind::CXXThrowExpr => 133,
            CXCursorKind::CXXNewExpr => 134,
            CXCursorKind::CXXDeleteExpr => 135,
            CXCursorKind::UnaryExpr => 136,
            CXCursorKind::ObjCStringLiteral => 137,
            CXCursorKind::ObjCEncodeExpr => 138,
            CXCursorKind::ObjCSelectorExpr => 139,
            CXCursorKind::ObjCProtocolExpr => 140,
            CXCursorKind::ObjCBridgedCastExpr => 141,
            CXCursorKind::PackExpansionExpr => 142,
            CXCursorKind::SizeOfPackExpr => 143,
            CXCursorKind::LambdaExpr => 144,
            CXCursorKind::ObjCBoolLiteralExpr => 145,
            CXCursorKind::ObjCSelfExpr => 146,
            CXCursorKind::UnexposedStmt => 200,
            CXCursorKind::LabelStmt => 201,
            CXCursorKind::CompoundStmt => 202,
            CXCursorKind::CaseStmt => 203,
            CXCursorKind::DefaultStmt => 204,
            CXCursorKind::IfStmt => 205,
            CXCursorKind::SwitchStmt => 206,
            CXCursorKind::WhileStmt => 207,
            CXCursorKind::DoStmt => 208,
            CXCursorKind::ForStmt => 209,
            CXCursorKind::GotoStmt => 210,
            CXCursorKind::IndirectGotoStmt => 211,
            CXCursorKind::ContinueStmt => 212,
            CXCursorKind::BreakStmt => 213,
            CXCursorKind::ReturnStmt => 214,
            CXCursorKind::AsmStmt => 215,
            CXCursorKind::ObjCAtTryStmt => 216,
            CXCursorKind::ObjCAtCatchStmt => 217,
            CXCursorKind::ObjCAtFinallyStmt => 218,
            CXCursorKind::ObjCAtThrowStmt => 219,
            CXCursorKind::ObjCAtSynchronizedStmt => 220,
            CXCursorKind::ObjCAutoreleasePoolStmt => 221,
            CXCursorKind::ObjCForCollectionStmt => 222,
            CXCursorKind::CXXCatchStmt => 223,
            CXCursorKind::CXXTryStmt => 224,
            CXCursorKind::CXXForRangeStmt => 225,
            CXCursorKind::SEHTryStmt => 226,
            CXCursorKind::SEHExceptStmt => 227,
            CXCursorKind::SEHFinallyStmt => 228,
            CXCursorKind::MSAsmStmt => 229,
            CXCursorKind::NullStmt => 230,
            CXCursorKind::DeclStmt => 231,
            CXCursorKind::OMPParallelDirective => 232,
            CXCursorKind::OMPSimdDirective => 233,
            CXCursorKind::OMPForDirective => 234,
            CXCursorKind::OMPSectionsDirective => 235,
            CXCursorKind::OMPSectionDirective => 236,
            CXCursorKind::OMPSingleDirective => 237,
            CXCursorKind::OMPParallelForDirective => 238,
            CXCursorKind::OMPParallelSectionsDirective => 239,
            CXCursorKind::OMPTaskDirective => 240,
            CXCursorKind::OMPMasterDirective => 241,
            CXCursorKind::OMPCriticalDirective => 242,
            CXCursorKind::OMPTaskyieldDirective => 243,
            CXCursorKind::OMPBarrierDirective => 244,
            CXCursorKind::OMPTaskwaitDirective => 245,
            CXCursorKind::OMPFlushDirective => 246,
            CXCursorKind::SEHLeaveStmt => 247,
            CXCursorKind::OMPOrderedDirective => 248,
            CXCursorKind::OMPAtomicDirective => 249,
            CXCursorKind::OMPForSimdDirective => 250,
            CXCursorKind::OMPParallelForSimdDirective => 251,
            CXCursorKind::OMPTargetDirective => 252,
            CXCursorKind::OMPTeamsDirective => 253,
            CXCursorKind::OMPTaskgroupDirective => 254,
            CXCursorKind::OMPCancellationPointDirective => 255,
            CXCursorKind::OMPCancelDirective => 256,
            CXCursorKind::TranslationUnit => 300,
            CXCursorKind::UnexposedAttr => 400,
            CXCursorKind::IBActionAttr => 401,
            CXCursorKind::IBOutletAttr => 402,
            CXCursorKind::IBOutletCollectionAttr => 403,
            CXCursorKind::CXXFinalAttr => 404,
            CXCursorKind::CXXOverrideAttr => 405,
            CXCursorKind::AnnotateAttr => 406,
            CXCursorKind::AsmLabelAttr => 407,
            CXCursorKind::PackedAttr => 408,
            CXCursorKind::PureAttr => 409,
            CXCursorKind::ConstAttr => 410,
            CXCursorKind::NoDuplicateAttr => 411,
            CXCursorKind::CUDAConstantAttr => 412,
            CXCursorKind::CUDADeviceAttr => 413,
            CXCursorKind::CUDAGlobalAttr => 414,
            CXCursorKind::CUDAHostAttr => 415,
            CXCursorKind::CUDASharedAttr => 416,
            CXCursorKind::PreprocessingDirective => 500,
            CXCursorKind::MacroDefinition => 501,
            CXCursorKind::MacroExpansion => 502,
            CXCursorKind::InclusionDirective => 503,
            CXCursorKind::ModuleImportDecl => 600,
            CXCursorKind::OverloadCandidate => 700,
        }
    }

    /// Returns the value libclang uses for this value.
    pub fn to_raw(self) -> (raw: i32)
        ensures
            raw == self.code(),
    {
        match self {
            CXCursorKind::UnexposedDecl => 1,
            CXCursorKind::StructDecl => 2,
            CXCursorKind::UnionDecl => 3,
            CXCursorKind::ClassDecl => 4,
            CXCursorKind::EnumDecl => 5,
            CXCursorKind::FieldDecl => 6,
            CXCursorKind::EnumConstantDecl => 7,
            CXCursorKind::FunctionDecl => 8,
            CXCursorKind::VarDecl => 9,
            CXCursorKind::ParmDecl => 10,
            CXCursorKind::ObjCInterfaceDecl => 11,
            CXCursorKind::ObjCCategoryDecl => 12,
            CXCursorKind::ObjCProtocolDecl => 13,
            CXCursorKind::ObjCPropertyDecl => 14,
            CXCursorKind::ObjCIvarDecl => 15,
            CXCursorKind::ObjCInstanceMethodDecl => 16,
            CXCursorKind::ObjCClassMethodDecl => 17,
            CXCursorKind::ObjCImplementationDecl => 18,
            CXCursorKind::ObjCCategoryImplDecl => 19,
            CXCursorKind::TypedefDecl => 20,
            CXCursorKind::CXXMethod => 21,
            CXCursorKind::Namespace => 22,
            CXCursorKind::LinkageSpec => 23,
            CXCursorKind::Constructor => 24,
            CXCursorKind::Destructor => 25,
            CXCursorKind::ConversionFunction => 26,
            CXCursorKind::TemplateTypeParameter => 27,
            CXCursorKind::NonTypeTemplateParameter => 28,
            CXCursorKind::TemplateTemplateParameter => 29,
            CXCursorKind::FunctionTemplate => 30,
            CXCursorKind::ClassTemplate => 31,
            CXCursorKind::ClassTemplatePartialSpecialization => 32,
            CXCursorKind::NamespaceAlias => 33,
            CXCursorKind::UsingDirective => 34,
            CXCursorKind::UsingDeclaration => 35,
            CXCursorKind::TypeAliasDecl => 36,
            CXCursorKind::ObjCSynthesizeDecl => 37,
            CXCursorKind::ObjCDynamicDecl => 38,
            CXCursorKind::CXXAccessSpecifier => 39,
            CXCursorKind::ObjCSuperClassRef => 40,
            CXCursorKind::ObjCProtocolRef => 41,
            CXCursorKind::ObjCClassRef => 42,
            CXCursorKind::TypeRef => 43,
            CXCursorKind::CXXBaseSpecifier => 44,
            CXCursorKind::TemplateRef => 45,
            CXCursorKind::NamespaceRef => 46,
            CXCursorKind::MemberRef => 47,
            CXCursorKind::LabelRef => 48,
            CXCursorKind::OverloadedDeclRef => 49,
            CXCursorKind::VariableRef => 50,
            CXCursorKind::InvalidFile => 70,
            CXCursorKind::NoDeclFound => 71,
            CXCursorKind::NotImplemented => 72,
            CXCursorKind::InvalidCode => 73,
            CXCursorKind::UnexposedExpr => 100,
            CXCursorKind::DeclRefExpr => 101,
            CXCursorKind::MemberRefExpr => 102,
            CXCursorKind::CallExpr => 103,
            CXCursorKind::ObjCMessageExpr => 104,
            CXCursorKind::BlockExpr => 105,
            CXCursorKind::IntegerLiteral => 106,
            CXCursorKind::FloatingLiteral => 107,
            CXCursorKind::ImaginaryLiteral => 108,
            CXCursorKind::StringLiteral => 109,
            CXCursorKind::CharacterLiteral => 110,
            CXCursorKind::ParenExpr => 111,
            CXCursorKind::UnaryOperator => 112,
            CXCursorKind::ArraySubscriptExpr => 113,
            CXCursorKind::BinaryOperator => 114,
            CXCursorKind::CompoundAssignOperator => 115,
            CXCursorKind::ConditionalOperator => 116,
            CXCursorKind::CStyleCastExpr => 117,
            CXCursorKind::CompoundLiteralExpr => 118,
            CXCursorKind::InitListExpr => 119,
            CXCursorKind::AddrLabelExpr => 120,
            CXCursorKind::StmtExpr => 121,
            CXCursorKind::GenericSelectionExpr => 122,
            CXCursorKind::GNUNullExpr => 123,
            CXCursorKind::CXXStaticCastExpr => 124,
            CXCursorKind::CXXDynamicCastExpr => 125,
            CXCursorKind::CXXReinterpretCastExpr => 126,
            CXCursorKind::CXXConstCastExpr => 127,
            CXCursorKind::CXXFunctionalCastExpr => 128,
            CXCursorKind::CXXTypeidExpr => 129,
            CXCursorKind::CXXBoolLiteralExpr => 130,
            CXCursorKind::CXXNullPtrLiteralExpr => 131,
            CXCursorKind::CXXThisExpr => 132,
            CXCursorKind::CXXThrowExpr => 133,
            CXCursorKind::CXXNewExpr => 134,
            CXCursorKind::CXXDeleteExpr => 135,
            CXCursorKind::UnaryExpr => 136,
            CXCursorKind::ObjCStringLiteral => 137,
            CXCursorKind::ObjCEncodeExpr => 138,
            CXCursorKind::ObjCSelectorExpr => 139,
            CXCursorKind::ObjCProtocolExpr => 140,
            CXCursorKind::ObjCBridgedCastExpr => 141,
            CXCursorKind::PackExpansionExpr => 142,
            CXCursorKind::SizeOfPackExpr => 143,
            CXCursorKind::LambdaExpr => 144,
            CXCursorKind::ObjCBoolLiteralExpr => 145,
            CXCursorKind::ObjCSelfExpr => 146,
            CXCursorKind::UnexposedStmt => 200,
            CXCursorKind::LabelStmt => 201,
            CXCursorKind::CompoundStmt => 202,
            CXCursorKind::CaseStmt => 203,
            CXCursorKind::DefaultStmt => 204,
            CXCursorKind::IfStmt => 205,
            CXCursorKind::SwitchStmt => 206,
            CXCursorKind::WhileStmt => 207,
            CXCursorKind::DoStmt => 208,
            CXCursorKind::ForStmt => 209,
            CXCursorKind::GotoStmt => 210,
            CXCursorKind::IndirectGotoStmt => 211,
            CXCursorKind::ContinueStmt => 212,
            CXCursorKind::BreakStmt => 213,
            CXCursorKind::ReturnStmt => 214,
            CXCursorKind::AsmStmt => 215,
            CXCursorKind::ObjCAtTryStmt => 216,
            CXCursorKind::ObjCAtCatchStmt => 217,
            CXCursorKind::ObjCAtFinallyStmt => 218,
            CXCursorKind::ObjCAtThrowStmt => 219,
            CXCursorKind::ObjCAtSynchronizedStmt => 220,
            CXCursorKind::ObjCAutoreleasePoolStmt => 221,
            CXCursorKind::ObjCForCollectionStmt => 222,
            CXCursorKind::CXXCatchStmt => 223,
            CXCursorKind::CXXTryStmt => 224,
            CXCursorKind::CXXForRangeStmt => 225,
            CXCursorKind::SEHTryStmt => 226,
            CXCursorKind::SEHExceptStmt => 227,
            CXCursorKind::SEHFinallyStmt => 228,
            CXCursorKind::MSAsmStmt => 229,
            CXCursorKind::NullStmt => 230,
            CXCursorKind::DeclStmt => 231,
            CXCursorKind::OMPParallelDirective => 232,
            CXCursorKind::OMPSimdDirective => 233,
            CXCursorKind::OMPForDirective => 234,
            CXCursorKind::OMPSectionsDirective => 235,
            CXCursorKind::OMPSectionDirective => 236,
            CXCursorKind::OMPSingleDirective => 237,
            CXCursorKind::OMPParallelForDirective => 238,
            CXCursorKind::OMPParallelSectionsDirective => 239,
            CXCursorKind::OMPTaskDirective => 240,
            CXCursorKind::OMPMasterDirective => 241,
            CXCursorKind::OMPCriticalDirective => 242,
            CXCursorKind::OMPTaskyieldDirective => 243,
            CXCursorKind::OMPBarrierDirective => 244,
            CXCursorKind::OMPTaskwaitDirective => 245,
            CXCursorKind::OMPFlushDirective => 246,
            CXCursorKind::SEHLeaveStmt => 247,
            CXCursorKind::OMPOrderedDirective => 248,
            CXCursorKind::OMPAtomicDirective => 249,
            CXCursorKind::OMPForSimdDirective => 250,
            CXCursorKind::OMPParallelForSimdDirective => 251,
            CXCursorKind::OMPTargetDirective => 252,
            CXCursorKind::OMPTeamsDirective => 253,
            CXCursorKind::OMPTaskgroupDirective => 254,
            CXCursorKind::OMPCancellationPointDirective => 255,
            CXCursorKind::OMPCancelDirective => 256,
            CXCursorKind::TranslationUnit => 300,
            CXCursorKind::UnexposedAttr => 400,
            CXCursorKind::IBActionAttr => 401,
            CXCursorKind::IBOutletAttr => 402,
            CXCursorKind::IBOutletCollectionAttr => 403,
            CXCursorKind::CXXFinalAttr => 404,
            CXCursorKind::CXXOverrideAttr => 405,
            CXCursorKind::AnnotateAttr => 406,
            CXCursorKind::AsmLabelAttr => 407,
            CXCursorKind::PackedAttr => 408,
            CXCursorKind::PureAttr => 409,
            CXCursorKind::ConstAttr => 410,
            CXCursorKind::NoDuplicateAttr => 411,
            CXCursorKind::CUDAConstantAttr => 412,
            CXCursorKind::CUDADeviceAttr => 413,
            CXCursorKind::CUDAGlobalAttr => 414,
            CXCursorKind::CUDAHostAttr => 415,
            CXCursorKind::CUDASharedAttr => 416,
            CXCursorKind::PreprocessingDirective => 500,
            CXCursorKind::MacroDefinition => 501,
            CXCursorKind::MacroExpansion => 502,
            CXCursorKind::InclusionDirective => 503,
            CXCursorKind::ModuleImportDecl => 600,
            CXCursorKind::OverloadCandidate => 700,
        }
    }

    /// Whether `raw` is one of the values that `from_raw` recognises.
    pub open spec fn is_code(raw: int) -> bool {
        ||| 1 <= raw <= 50
        ||| 70 <= raw <= 73
        ||| 100 <= raw <= 146
        ||| 200 <= raw <= 256
        ||| raw == 300
        ||| 400 <= raw <= 416
        ||| 500 <= raw <= 503
        ||| raw == 600
        ||| raw == 700
    }

    /// Returns the value that libclang denotes by `raw`, if `raw` is a recognised value.
    #[verifier::rlimit(100)]
    #[verifier::spinoff_prover]
    pub fn from_raw(raw: i32) -> (result: Option<Self>)
        ensures
            result is Some <==> Self::is_code(raw as int),
            result matches Some(k) ==> k.code() == raw,
    {
        match raw {
            1 => Some(CXCursorKind::UnexposedDecl),
            2 => Some(CXCursorKind::StructDecl),
            3 => Some(CXCursorKind::UnionDecl),
            4 => Some(CXCursorKind::ClassDecl),
            5 => Some(CXCursorKind::EnumDecl),
            6 => Some(CXCursorKind::FieldDecl),
            7 => Some(CXCursorKind::EnumConstantDecl),
            8 => Some(CXCursorKind::FunctionDecl),
            9 => Some(CXCursorKind::VarDecl),
            10 => Some(CXCursorKind::ParmDecl),
            11 => Some(CXCursorKind::ObjCInterfaceDecl),
            12 => Some(CXCursorKind::ObjCCategoryDecl),
            13 => Some(CXCursorKind::ObjCProtocolDecl),
            14 => Some(CXCursorKind::ObjCPropertyDecl),
            15 => Some(CXCursorKind::ObjCIvarDecl),
            16 => Some(CXCursorKind::ObjCInstanceMethodDecl),
            17 => Some(CXCursorKind::ObjCClassMethodDecl),
            18 => Some(CXCursorKind::ObjCImplementationDecl),
            19 => Some(CXCursorKind::ObjCCategoryImplDecl),
            20 => Some(CXCursorKind::TypedefDecl),
            21 => Some(CXCursorKind::CXXMethod),
            22 => Some(CXCursorKind::Namespace),
            23 => Some(CXCursorKind::LinkageSpec),
            24 => Some(CXCursorKind::Constructor),
            25 => Some(CXCursorKind::Destructor),
            26 => Some(CXCursorKind::ConversionFunction),
            27 => Some(CXCursorKind::TemplateTypeParameter),
            28 => Some(CXCursorKind::NonTypeTemplateParameter),
            29 => Some(CXCursorKind::TemplateTemplateParameter),
            30 => Some(CXCursorKind::FunctionTemplate),
            31 => Some(CXCursorKind::ClassTemplate),
            32 => Some(CXCursorKind::ClassTemplatePartialSpecialization),
            33 => Some(CXCursorKind::NamespaceAlias),
            34 => Some(CXCursorKind::UsingDirective),
            35 => Some(CXCursorKind::UsingDeclaration),
            36 => Some(CXCursorKind::TypeAliasDecl),
            37 => Some(CXCursorKind::ObjCSynthesizeDecl),
            38 => Some(CXCursorKind::ObjCDynamicDecl),
            39 => Some(CXCursorKind::CXXAccessSpecifier),
            40 => Some(CXCursorKind::ObjCSuperClassRef),
            41 => Some(CXCursorKind::ObjCProtocolRef),
            42 => Some(CXCursorKind::ObjCClassRef),
            43 => Some(CXCursorKind::TypeRef),
            44 => Some(CXCursorKind::CXXBaseSpecifier),
            45 => Some(CXCursorKind::TemplateRef),
            46 => Some(CXCursorKind::NamespaceRef),
            47 => Some(CXCursorKind::MemberRef),
            48 => Some(CXCursorKind::LabelRef),
            49 => Some(CXCursorKind::OverloadedDeclRef),
            50 => Some(CXCursorKind::VariableRef),
            70 => Some(CXCursorKind::InvalidFile),
            71 => Some(CXCursorKind::NoDeclFound),
            72 => Some(CXCursorKind::NotImplemented),
            73 => Some(CXCursorKind::InvalidCode),
            100 => Some(CXCursorKind::UnexposedExpr),
            101 => Some(CXCursorKind::DeclRefExpr),
            102 => Some(CXCursorKind::MemberRefExpr),
            103 => Some(CXCursorKind::CallExpr),
            104 => Some(CXCursorKind::ObjCMessageExpr),
            105 => Some(CXCursorKind::BlockExpr),
            106 => Some(CXCursorKind::IntegerLiteral),
            107 => Some(CXCursorKind::FloatingLiteral),
            108 => Some(CXCursorKind::ImaginaryLiteral),
            109 => Some(CXCursorKind::StringLiteral),
            110 => Some(CXCursorKind::CharacterLiteral),
            111 => Some(CXCursorKind::ParenExpr),
            112 => Some(CXCursorKind::UnaryOperator),
            113 => Some(CXCursorKind::ArraySubscriptExpr),
            114 => Some(CXCursorKind::BinaryOperator),
            115 => Some(CXCursorKind::CompoundAssignOperator),
            116 => Some(CXCursorKind::ConditionalOperator),
            117 => Some(CXCursorKind::CStyleCastExpr),
            118 => Some(CXCursorKind::CompoundLiteralExpr),
            119 => Some(CXCursorKind::InitListExpr),
            120 => Some(CXCursorKind::AddrLabelExpr),
            121 => Some(CXCursorKind::StmtExpr),
            122 => Some(CXCursorKind::GenericSelectionExpr),
            123 => Some(CXCursorKind::GNUNullExpr),
            124 => Some(CXCursorKind::CXXStaticCastExpr),
            125 => Some(CXCursorKind::CXXDynamicCastExpr),
            126 => Some(CXCursorKind::CXXReinterpretCastExpr),
            127 => Some(CXCursorKind::CXXConstCastExpr),
            128 => Some(CXCursorKind::CXXFunctionalCastExpr),
            129 => Some(CXCursorKind::CXXTypeidExpr),
            130 => Some(CXCursorKind::CXXBoolLiteralExpr),
            131 => Some(CXCursorKind::CXXNullPtrLiteralExpr),
            132 => Some(CXCursorKind::CXXThisExpr),
            133 => Some(CXCursorKind::CXXThrowExpr),
            134 => Some(CXCursorKind::CXXNewExpr),
            135 => Some(CXCursorKind::CXXDeleteExpr),
            136 => Some(CXCursorKind::UnaryExpr),
            137 => Some(CXCursorKind::ObjCStringLiteral),
            138 => Some(CXCursorKind::ObjCEncodeExpr),
            139 => Some(CXCursorKind::ObjCSelectorExpr),
            140 => Some(CXCursorKind::ObjCProtocolExpr),
            141 => Some(CXCursorKind::ObjCBridgedCastExpr),
            142 => Some(CXCursorKind::PackExpansionExpr),
            143 => Some(CXCursorKind::SizeOfPackExpr),
            144 => Some(CXCursorKind::LambdaExpr),
            145 => Some(CXCursorKind::ObjCBoolLiteralExpr),
            146 => Some(CXCursorKind::ObjCSelfExpr),
            200 => Some(CXCursorKind::UnexposedStmt),
            201 => Some(CXCursorKind::LabelStmt),
            202 => Some(CXCursorKind::CompoundStmt),
            203 => Some(CXCursorKind::CaseStmt),
            204 => Some(CXCursorKind::DefaultStmt),
            205 => Some(CXCursorKind::IfStmt),
            206 => Some(CXCursorKind::SwitchStmt),
            207 => Some(CXCursorKind::WhileStmt),
            208 => Some(CXCursorKind::DoStmt),
            209 => Some(CXCursorKind::ForStmt),
            210 => Some(CXCursorKind::GotoStmt),
            211 => Some(CXCursorKind::IndirectGotoStmt),
            212 => Some(CXCursorKind::ContinueStmt),
            213 => Some(CXCursorKind::BreakStmt),
            214 => Some(CXCursorKind::ReturnStmt),
            215 => Some(CXCursorKind::AsmStmt),
            216 => Some(CXCursorKind::ObjCAtTryStmt),
            217 => Some(CXCursorKind::ObjCAtCatchStmt),
            218 => Some(CXCursorKind::ObjCAtFinallyStmt),
            219 => Some(CXCursorKind::ObjCAtThrowStmt),
            220 => Some(CXCursorKind::ObjCAtSynchronizedStmt),
            221 => Some(CXCursorKind::ObjCAutoreleasePoolStmt),
            222 => Some(CXCursorKind::ObjCForCollectionStmt),
            223 => Some(CXCursorKind::CXXCatchStmt),
            224 => Some(CXCursorKind::CXXTryStmt),
            225 => Some(CXCursorKind::CXXForRangeStmt),
            226 => Some(CXCursorKind::SEHTryStmt),
            227 => Some(CXCursorKind::SEHExceptStmt),
            228 => Some(CXCursorKind::SEHFinallyStmt),
            229 => Some(CXCursorKind::MSAsmStmt),
            230 => Some(CXCursorKind::NullStmt),
            231 => Some(CXCursorKind::DeclStmt),
            232 => Some(CXCursorKind::OMPParallelDirective),
            233 => Some(CXCursorKind::OMPSimdDirective),
            234 => Some(CXCursorKind::OMPForDirective),
            235 => Some(CXCursorKind::OMPSectionsDirective),
            236 => Some(CXCursorKind::OMPSectionDirective),
            237 => Some(CXCursorKind::OMPSingleDirective),
            238 => Some(CXCursorKind::OMPParallelForDirective),
            239 => Some(CXCursorKind::OMPParallelSectionsDirective),
            240 => Some(CXCursorKind::OMPTaskDirective),
            241 => Some(CXCursorKind::OMPMasterDirective),
            242 => Some(CXCursorKind::OMPCriticalDirective),
            243 => Some(CXCursorKind::OMPTaskyieldDirective),
            244 => Some(CXCursorKind::OMPBarrierDirective),
            245 => Some(CXCursorKind::OMPTaskwaitDirective),
            246 => Some(CXCursorKind::OMPFlushDirective),
            247 => Some(CXCursorKind::SEHLeaveStmt),
            248 => Some(CXCursorKind::OMPOrderedDirective),
            249 => Some(CXCursorKind::OMPAtomicDirective),
            250 => Some(CXCursorKind::OMPForSimdDirective),
            251 => Some(CXCursorKind::OMPParallelForSimdDirective),
            252 => Some(CXCursorKind::OMPTargetDirective),
            253 => Some(CXCursorKind::OMPTeamsDirective),
            254 => Some(CXCursorKind::OMPTaskgroupDirective),
            255 => Some(CXCursorKind::OMPCancellationPointDirective),
            256 => Some(CXCursorKind::OMPCancelDirective),
            300 => Some(CXCursorKind::TranslationUnit),
            400 => Some(CXCursorKind::UnexposedAttr),
            401 => Some(CXCursorKind::IBActionAttr),
            402 => Some(CXCursorKind::IBOutletAttr),
            403 => Some(CXCursorKind::IBOutletCollectionAttr),
            404 => Some(CXCursorKind::CXXFinalAttr),
            405 => Some(CXCursorKind::CXXOverrideAttr),
            406 => Some(CXCursorKind::AnnotateAttr),
            407 => Some(CXCursorKind::AsmLabelAttr),
            408 => Some(CXCursorKind::PackedAttr),
            409 => Some(CXCursorKind::PureAttr),
            410 => Some(CXCursorKind::ConstAttr),
            411 => Some(CXCursorKind::NoDuplicateAttr),
            412 => Some(CXCursorKind::CUDAConstantAttr),
            413 => Some(CXCursorKind::CUDADeviceAttr),
            414 => Some(CXCursorKind::CUDAGlobalAttr),
            415 => Some(CXCursorKind::CUDAHostAttr),
            416 => Some(CXCursorKind::CUDASharedAttr),
            500 => Some(CXCursorKind::PreprocessingDirective),
            501 => Some(CXCursorKind::MacroDefinition),
            502 => Some(CXCursorKind::MacroExpansion),
            503 => Some(CXCursorKind::InclusionDirective),
            600 => Some(CXCursorKind::ModuleImportDecl),
            700 => Some(CXCursorKind::OverloadCandidate),
            _ => None,
        }
    }

    spec fn decode(raw: int) -> Option<Self> {
        if raw == 1 {
            Some(CXCursorKind::UnexposedDecl)
        } else if raw == 2 {
            Some(CXCursorKind::StructDecl)
        } else if raw == 3 {
            Some(CXCursorKind::UnionDecl)
        } else if raw == 4 {
            Some(CXCursorKind::ClassDecl)
        } else if raw == 5 {
            Some(CXCursorKind::EnumDecl)
        } else if raw == 6 {
            Some(CXCursorKind::FieldDecl)
        } else if raw == 7 {
            Some(CXCursorKind::EnumConstantDecl)
        } else if raw == 8 {
            Some(CXCursorKind::FunctionDecl)
        } else if raw == 9 {
            Some(CXCursorKind::VarDecl)
        } else if raw == 10 {
            Some(CXCursorKind::ParmDecl)
        } else if raw == 11 {
            Some(CXCursorKind::ObjCInterfaceDecl)
        } else if raw == 12 {
            Some(CXCursorKind::ObjCCategoryDecl)
        } else if raw == 13 {
            Some(CXCursorKind::ObjCProtocolDecl)
        } else if raw == 14 {
            Some(CXCursorKind::ObjCPropertyDecl)
        } else if raw == 15 {
            Some(CXCursorKind::ObjCIvarDecl)
        } else if raw == 16 {
            Some(CXCursorKind::ObjCInstanceMethodDecl)
        } else if raw == 17 {
            Some(CXCursorKind::ObjCClassMethodDecl)
        } else if raw == 18 {
            Some(CXCursorKind::ObjCImplementationDecl)
        } else if raw == 19 {
            Some(CXCursorKind::ObjCCategoryImplDecl)
        } else if raw == 20 {
            Some(CXCursorKind::TypedefDecl)
        } else if raw == 21 {
            Some(CXCursorKind::CXXMethod)
        } else if raw == 22 {
            Some(CXCursorKind::Namespace)
        } else if raw == 23 {
            Some(CXCursorKind::LinkageSpec)
        } else if raw == 24 {
            Some(CXCursorKind::Constructor)
        } else if raw == 25 {
            Some(CXCursorKind::Destructor)
        } else if raw == 26 {
            Some(CXCursorKind::ConversionFunction)
        } else if raw == 27 {
            Some(CXCursorKind::TemplateTypeParameter)
        } else if raw == 28 {
            Some(CXCursorKind::NonTypeTemplateParameter)
        } else if raw == 29 {
            Some(CXCursorKind::TemplateTemplateParameter)
        } else if raw == 30 {
            Some(CXCursorKind::FunctionTemplate)
        } else if raw == 31 {
            Some(CXCursorKind::ClassTemplate)
        } else if raw == 32 {
            Some(CXCursorKind::ClassTemplatePartialSpecialization)
        } else if raw == 33 {
            Some(CXCursorKind::NamespaceAlias)
        } else if raw == 34 {
            Some(CXCursorKind::UsingDirective)
        } else if raw == 35 {
            Some(CXCursorKind::UsingDeclaration)
        } else if raw == 36 {
            Some(CXCursorKind::TypeAliasDecl)
        } else if raw == 37 {
            Some(CXCursorKind::ObjCSynthesizeDecl)
        } else if raw == 38 {
            Some(CXCursorKind::ObjCDynamicDecl)
        } else if raw == 39 {
            Some(CXCursorKind::CXXAccessSpecifier)
        } else if raw == 40 {
            Some(CXCursorKind::ObjCSuperClassRef)
        } else if raw == 41 {
            Some(CXCursorKind::ObjCProtocolRef)
        } else if raw == 42 {
            Some(CXCursorKind::ObjCClassRef)
        } else if raw == 43 {
            Some(CXCursorKind::TypeRef)
        } else if raw == 44 {
            Some(CXCursorKind::CXXBaseSpecifier)
        } else if raw == 45 {
            Some(CXCursorKind::TemplateRef)
        } else if raw == 46 {
            Some(CXCursorKind::NamespaceRef)
        } else if raw == 47 {
            Some(CXCursorKind::MemberRef)
        } else if raw == 48 {
            Some(CXCursorKind::LabelRef)
        } else if raw == 49 {
            Some(CXCursorKind::OverloadedDeclRef)
        } else if raw == 50 {
            Some(CXCursorKind::VariableRef)
        } else if raw == 70 {
            Some(CXCursorKind::InvalidFile)
        } else if raw == 71 {
            Some(CXCursorKind::NoDeclFound)
        } else if raw == 72 {
            Some(CXCursorKind::NotImplemented)
        } else if raw == 73 {
            Some(CXCursorKind::InvalidCode)
        } else if raw == 100 {
            Some(CXCursorKind::UnexposedExpr)
        } else if raw == 101 {
            Some(CXCursorKind::DeclRefExpr)
        } else if raw == 102 {
            Some(CXCursorKind::MemberRefExpr)
        } else if raw == 103 {
            Some(CXCursorKind::CallExpr)
        } else if raw == 104 {
            Some(CXCursorKind::ObjCMessageExpr)
        } else if raw == 105 {
            Some(CXCursorKind::BlockExpr)
        } else if raw == 106 {
            Some(CXCursorKind::IntegerLiteral)
        } else if raw == 107 {
            Some(CXCursorKind::FloatingLiteral)
        } else if raw == 108 {
            Some(CXCursorKind::ImaginaryLiteral)
        } else if raw == 109 {
            Some(CXCursorKind::StringLiteral)
        } else if raw == 110 {
            Some(CXCursorKind::CharacterLiteral)
        } else if raw == 111 {
            Some(CXCursorKind::ParenExpr)
        } else if raw == 112 {
            Some(CXCursorKind::UnaryOperator)
        } else if raw == 113 {
            Some(CXCursorKind::ArraySubscriptExpr)
        } else if raw == 114 {
            Some(CXCursorKind::BinaryOperator)
        } else if raw == 115 {
            Some(CXCursorKind::CompoundAssignOperator)
        } else if raw == 116 {
            Some(CXCursorKind::ConditionalOperator)
        } else if raw == 117 {
            Some(CXCursorKind::CStyleCastExpr)
        } else if raw == 118 {
            Some(CXCursorKind::CompoundLiteralExpr)
        } else if raw == 119 {
            Some(CXCursorKind::InitListExpr)
        } else if raw == 120 {
            Some(CXCursorKind::AddrLabelExpr)
        } else if raw == 121 {
            Some(CXCursorKind::StmtExpr)
        } else if raw == 122 {
            Some(CXCursorKind::GenericSelectionExpr)
        } else if raw == 123 {
            Some(CXCursorKind::GNUNullExpr)
        } else if raw == 124 {
            Some(CXCursorKind::CXXStaticCastExpr)
        } else if raw == 125 {
            Some(CXCursorKind::CXXDynamicCastExpr)
        } else if raw == 126 {
            Some(CXCursorKind::CXXReinterpretCastExpr)
        } else if raw == 127 {
            Some(CXCursorKind::CXXConstCastExpr)
        } else if raw == 128 {
            Some(CXCursorKind::CXXFunctionalCastExpr)
        } else if raw == 129 {
            Some(CXCursorKind::CXXTypeidExpr)
        } else if raw == 130 {
            Some(CXCursorKind::CXXBoolLiteralExpr)
        } else if raw == 131 {
            Some(CXCursorKind::CXXNullPtrLiteralExpr)
        } else if raw == 132 {
            Some(CXCursorKind::CXXThisExpr)
        } else if raw == 133 {
            Some(CXCursorKind::CXXThrowExpr)
        } else if raw == 134 {
            Some(CXCursorKind::CXXNewExpr)
        } else if raw == 135 {
            Some(CXCursorKind::CXXDeleteExpr)
        } else if raw == 136 {
            Some(CXCursorKind::UnaryExpr)
        } else if raw == 137 {
            Some(CXCursorKind::ObjCStringLiteral)
        } else if raw == 138 {
            Some(CXCursorKind::ObjCEncodeExpr)
        } else if raw == 139 {
            Some(CXCursorKind::ObjCSelectorExpr)
        } else if raw == 140 {
            Some(CXCursorKind::ObjCProtocolExpr)
        } else if raw == 141 {
            Some(CXCursorKind::ObjCBridgedCastExpr)
        } else if raw == 142 {
            Some(CXCursorKind::PackExpansionExpr)
        } else if raw == 143 {
            Some(CXCursorKind::SizeOfPackExpr)
        } else if raw == 144 {
            Some(CXCursorKind::LambdaExpr)
        } else if raw == 145 {
            Some(CXCursorKind::ObjCBoolLiteralExpr)
        } else if raw == 146 {
            Some(CXCursorKind::ObjCSelfExpr)
        } else if raw == 200 {
            Some(CXCursorKind::UnexposedStmt)
        } else if raw == 201 {
            Some(CXCursorKind::LabelStmt)
        } else if raw == 202 {
            Some(CXCursorKind::CompoundStmt)
        } else if raw == 203 {
            Some(CXCursorKind::CaseStmt)
        } else if raw == 204 {
            Some(CXCursorKind::DefaultStmt)
        } else if raw == 205 {
            Some(CXCursorKind::IfStmt)
        } else if raw == 206 {
            Some(CXCursorKind::SwitchStmt)
        } else if raw == 207 {
            Some(CXCursorKind::WhileStmt)
        } else if raw == 208 {
            Some(CXCursorKind::DoStmt)
        } else if raw == 209 {
            Some(CXCursorKind::ForStmt)
        } else if raw == 210 {
            Some(CXCursorKind::GotoStmt)
        } else if raw == 211 {
            Some(CXCursorKind::IndirectGotoStmt)
        } else if raw == 212 {
            Some(CXCursorKind::ContinueStmt)
        } else if raw == 213 {
            Some(CXCursorKind::BreakStmt)
        } else if raw == 214 {
            Some(CXCursorKind::ReturnStmt)
        } else if raw == 215 {
            Some(CXCursorKind::AsmStmt)
        } else if raw == 216 {
            Some(CXCursorKind::ObjCAtTryStmt)
        } else if raw == 217 {
            Some(CXCursorKind::ObjCAtCatchStmt)
        } else if raw == 218 {
            Some(CXCursorKind::ObjCAtFinallyStmt)
        } else if raw == 219 {
            Some(CXCursorKind::ObjCAtThrowStmt)
        } else if raw == 220 {
            Some(CXCursorKind::ObjCAtSynchronizedStmt)
        } else if raw == 221 {
            Some(CXCursorKind::ObjCAutoreleasePoolStmt)
        } else if raw == 222 {
            Some(CXCursorKind::ObjCForCollectionStmt)
        } else if raw == 223 {
            Some(CXCursorKind::CXXCatchStmt)
        } else if raw == 224 {
            Some(CXCursorKind::CXXTryStmt)
        } else if raw == 225 {
            Some(CXCursorKind::CXXForRangeStmt)
        } else if raw == 226 {
            Some(CXCursorKind::SEHTryStmt)
        } else if raw == 227 {
            Some(CXCursorKind::SEHExceptStmt)
        } else if raw == 228 {
            Some(CXCursorKind::SEHFinallyStmt)
        } else if raw == 229 {
            Some(CXCursorKind::MSAsmStmt)
        } else if raw == 230 {
            Some(CXCursorKind::NullStmt)
        } else if raw == 231 {
            Some(CXCursorKind::DeclStmt)
        } else if raw == 232 {
            Some(CXCursorKind::OMPParallelDirective)
        } else if raw == 233 {
            Some(CXCursorKind::OMPSimdDirective)
        } else if raw == 234 {
            Some(CXCursorKind::OMPForDirective)
        } else if raw == 235 {
            Some(CXCursorKind::OMPSectionsDirective)
        } else if raw == 236 {
            Some(CXCursorKind::OMPSectionDirective)
        } else if raw == 237 {
            Some(CXCursorKind::OMPSingleDirective)
        } else if raw == 238 {
            Some(CXCursorKind::OMPParallelForDirective)
        } else if raw == 239 {
            Some(CXCursorKind::OMPParallelSectionsDirective)
        } else if raw == 240 {
            Some(CXCursorKind::OMPTaskDirective)
        } else if raw == 241 {
            Some(CXCursorKind::OMPMasterDirective)
        } else if raw == 242 {
            Some(CXCursorKind::OMPCriticalDirective)
        } else if raw == 243 {
            Some(CXCursorKind::OMPTaskyieldDirective)
        } else if raw == 244 {
            Some(CXCursorKind::OMPBarrierDirective)
        } else if raw == 245 {
            Some(CXCursorKind::OMPTaskwaitDirective)
        } else if raw == 246 {
            Some(CXCursorKind::OMPFlushDirective)
        } else if raw == 247 {
            Some(CXCursorKind::SEHLeaveStmt)
        } else if raw == 248 {
            Some(CXCursorKind::OMPOrderedDirective)
        } else if raw == 249 {
            Some(CXCursorKind::OMPAtomicDirective)
        } else if raw == 250 {
            Some(CXCursorKind::OMPForSimdDirective)
        } else if raw == 251 {
            Some(CXCursorKind::OMPParallelForSimdDirective)
        } else if raw == 252 {
            Some(CXCursorKind::OMPTargetDirective)
        } else if raw == 253 {
            Some(CXCursorKind::OMPTeamsDirective)
        } else if raw == 254 {
            Some(CXCursorKind::OMPTaskgroupDirective)
        } else if raw == 255 {
            Some(CXCursorKind::OMPCancellationPointDirective)
        } else if raw == 256 {
            Some(CXCursorKind::OMPCancelDirective)
        } else if raw == 300 {
            Some(CXCursorKind::TranslationUnit)
        } else if raw == 400 {
            Some(CXCursorKind::UnexposedAttr)
        } else if raw == 401 {
            Some(CXCursorKind::IBActionAttr)
        } else if raw == 402 {
            Some(CXCursorKind::IBOutletAttr)
        } else if raw == 403 {
            Some(CXCursorKind::IBOutletCollectionAttr)
        } else if raw == 404 {
            Some(CXCursorKind::CXXFinalAttr)
        } else if raw == 405 {
            Some(CXCursorKind::CXXOverrideAttr)
        } else if raw == 406 {
            Some(CXCursorKind::AnnotateAttr)
        } else if raw == 407 {
            Some(CXCursorKind::AsmLabelAttr)
        } else if raw == 408 {
            Some(CXCursorKind::PackedAttr)
        } else if raw == 409 {
            Some(CXCursorKind::PureAttr)
        } else if raw == 410 {
            Some(CXCursorKind::ConstAttr)
        } else if raw == 411 {
            Some(CXCursorKind::NoDuplicateAttr)
        } else if raw == 412 {
            Some(CXCursorKind::CUDAConstantAttr)
        } else if raw == 413 {
            Some(CXCursorKind::CUDADeviceAttr)
        } else if raw == 414 {
            Some(CXCursorKind::CUDAGlobalAttr)
        } else if raw == 415 {
            Some(CXCursorKind::CUDAHostAttr)
        } else if raw == 416 {
            Some(CXCursorKind::CUDASharedAttr)
        } else if raw == 500 {
            Some(CXCursorKind::PreprocessingDirective)
        } else if raw == 501 {
            Some(CXCursorKind::MacroDefinition)
        } else if raw == 502 {
            Some(CXCursorKind::MacroExpansion)
        } else if raw == 503 {
            Some(CXCursorKind::InclusionDirective)
        } else if raw == 600 {
            Some(CXCursorKind::ModuleImportDecl)
        } else if raw == 700 {
            Some(CXCursorKind::OverloadCandidate)
        } else {
            None
        }
    }

    #[verifier::rlimit(100)]
    #[verifier::spinoff_prover]
    proof fn lemma_decode(self)
        ensures
            Self::decode(self.code()) == Some(self),
    {
        match self {
            CXCursorKind::UnexposedDecl => {},
            CXCursorKind::StructDecl => {},
            CXCursorKind::UnionDecl => {},
            CXCursorKind::ClassDecl => {},
            CXCursorKind::EnumDecl => {},
            CXCursorKind::FieldDecl => {},
            CXCursorKind::EnumConstantDecl => {},
            CXCursorKind::FunctionDecl => {},
            CXCursorKind::VarDecl => {},
            CXCursorKind::ParmDecl => {},
            CXCursorKind::ObjCInterfaceDecl => {},
            CXCursorKind::ObjCCategoryDecl => {},
            CXCursorKind::ObjCProtocolDecl => {},
            CXCursorKind::ObjCPropertyDecl => {},
            CXCursorKind::ObjCIvarDecl => {},
            CXCursorKind::ObjCInstanceMethodDecl => {},
            CXCursorKind::ObjCClassMethodDecl => {},
            CXCursorKind::ObjCImplementationDecl => {},
            CXCursorKind::ObjCCategoryImplDecl => {},
            CXCursorKind::TypedefDecl => {},
            CXCursorKind::CXXMethod => {},
            CXCursorKind::Namespace => {},
            CXCursorKind::LinkageSpec => {},
            CXCursorKind::Constructor => {},
            CXCursorKind::Destructor => {},
            CXCursorKind::ConversionFunction => {},
            CXCursorKind::TemplateTypeParameter => {},
            CXCursorKind::NonTypeTemplateParameter => {},
            CXCursorKind::TemplateTemplateParameter => {},
            CXCursorKind::FunctionTemplate => {},
            CXCursorKind::ClassTemplate => {},
            CXCursorKind::ClassTemplatePartialSpecialization => {},
            CXCursorKind::NamespaceAlias => {},
            CXCursorKind::UsingDirective => {},
            CXCursorKind::UsingDeclaration => {},
            CXCursorKind::TypeAliasDecl => {},
            CXCursorKind::ObjCSynthesizeDecl => {},
            CXCursorKind::ObjCDynamicDecl => {},
            CXCursorKind::CXXAccessSpecifier => {},
            CXCursorKind::ObjCSuperClassRef => {},
            CXCursorKind::ObjCProtocolRef => {},
            CXCursorKind::ObjCClassRef => {},
            CXCursorKind::TypeRef => {},
            CXCursorKind::CXXBaseSpecifier => {},
            CXCursorKind::TemplateRef => {},
            CXCursorKind::NamespaceRef => {},
            CXCursorKind::MemberRef => {},
            CXCursorKind::LabelRef => {},
            CXCursorKind::OverloadedDeclRef => {},
            CXCursorKind::VariableRef => {},
            CXCursorKind::InvalidFile => {},
            CXCursorKind::NoDeclFound => {},
            CXCursorKind::NotImplemented => {},
            CXCursorKind::InvalidCode => {},
            CXCursorKind::UnexposedExpr => {},
            CXCursorKind::DeclRefExpr => {},
            CXCursorKind::MemberRefExpr => {},
            CXCursorKind::CallExpr => {},
            CXCursorKind::ObjCMessageExpr => {},
            CXCursorKind::BlockExpr => {},
            CXCursorKind::IntegerLiteral => {},
            CXCursorKind::FloatingLiteral => {},
            CXCursorKind::ImaginaryLiteral => {},
            CXCursorKind::StringLiteral => {},
            CXCursorKind::CharacterLiteral => {},
            CXCursorKind::ParenExpr => {},
            CXCursorKind::UnaryOperator => {},
            CXCursorKind::ArraySubscriptExpr => {},
            CXCursorKind::BinaryOperator => {},
            CXCursorKind::CompoundAssignOperator => {},
            CXCursorKind::ConditionalOperator => {},
            CXCursorKind::CStyleCastExpr => {},
            CXCursorKind::CompoundLiteralExpr => {},
            CXCursorKind::InitListExpr => {},
            CXCursorKind::AddrLabelExpr => {},
            CXCursorKind::StmtExpr => {},
            CXCursorKind::GenericSelectionExpr => {},
            CXCursorKind::GNUNullExpr => {},
            CXCursorKind::CXXStaticCastExpr => {},
            CXCursorKind::CXXDynamicCastExpr => {},
            CXCursorKind::CXXReinterpretCastExpr => {},
            CXCursorKind::CXXConstCastExpr => {},
            CXCursorKind::CXXFunctionalCastExpr => {},
            CXCursorKind::CXXTypeidExpr => {},
            CXCursorKind::CXXBoolLiteralExpr => {},
            CXCursorKind::CXXNullPtrLiteralExpr => {},
            CXCursorKind::CXXThisExpr => {},
            CXCursorKind::CXXThrowExpr => {},
            CXCursorKind::CXXNewExpr => {},
            CXCursorKind::CXXDeleteExpr => {},
            CXCursorKind::UnaryExpr => {},
            CXCursorKind::ObjCStringLiteral => {},
            CXCursorKind::ObjCEncodeExpr => {},
            CXCursorKind::ObjCSelectorExpr => {},
            CXCursorKind::ObjCProtocolExpr => {},
            CXCursorKind::ObjCBridgedCastExpr => {},
            CXCursorKind::PackExpansionExpr => {},
            CXCursorKind::SizeOfPackExpr => {},
            CXCursorKind::LambdaExpr => {},
            CXCursorKind::ObjCBoolLiteralExpr => {},
            CXCursorKind::ObjCSelfExpr => {},
            CXCursorKind::UnexposedStmt => {},
            CXCursorKind::LabelStmt => {},
            CXCursorKind::CompoundStmt => {},
            CXCursorKind::CaseStmt => {},
            CXCursorKind::DefaultStmt => {},
            CXCursorKind::IfStmt => {},
            CXCursorKind::SwitchStmt => {},
            CXCursorKind::WhileStmt => {},
            CXCursorKind::DoStmt => {},
            CXCursorKind::ForStmt => {},
            CXCursorKind::GotoStmt => {},
            CXCursorKind::IndirectGotoStmt => {},
            CXCursorKind::ContinueStmt => {},
            CXCursorKind::BreakStmt => {},
            CXCursorKind::ReturnStmt => {},
            CXCursorKind::AsmStmt => {},
            CXCursorKind::ObjCAtTryStmt => {},
            CXCursorKind::ObjCAtCatchStmt => {},
            CXCursorKind::ObjCAtFinallyStmt => {},
            CXCursorKind::ObjCAtThrowStmt => {},
            CXCursorKind::ObjCAtSynchronizedStmt => {},
            CXCursorKind::ObjCAutoreleasePoolStmt => {},
            CXCursorKind::ObjCForCollectionStmt => {},
            CXCursorKind::CXXCatchStmt => {},
            CXCursorKind::CXXTryStmt => {},
            CXCursorKind::CXXForRangeStmt => {},
            CXCursorKind::SEHTryStmt => {},
            CXCursorKind::SEHExceptStmt => {},
            CXCursorKind::SEHFinallyStmt => {},
            CXCursorKind::MSAsmStmt => {},
            CXCursorKind::NullStmt => {},
            CXCursorKind::DeclStmt => {},
            CXCursorKind::OMPParallelDirective => {},
            CXCursorKind::OMPSimdDirective => {},
            CXCursorKind::OMPForDirective => {},
            CXCursorKind::OMPSectionsDirective => {},
            CXCursorKind::OMPSectionDirective => {},
            CXCursorKind::OMPSingleDirective => {},
            CXCursorKind::OMPParallelForDirective => {},
            CXCursorKind::OMPParallelSectionsDirective => {},
            CXCursorKind::OMPTaskDirective => {},
            CXCursorKind::OMPMasterDirective => {},
            CXCursorKind::OMPCriticalDirective => {},
            CXCursorKind::OMPTaskyieldDirective => {},
            CXCursorKind::OMPBarrierDirective => {},
            CXCursorKind::OMPTaskwaitDirective => {},
            CXCursorKind::OMPFlushDirective => {},
            CXCursorKind::SEHLeaveStmt => {},
            CXCursorKind::OMPOrderedDirective => {},
            CXCursorKind::OMPAtomicDirective => {},
            CXCursorKind::OMPForSimdDirective => {},
            CXCursorKind::OMPParallelForSimdDirective => {},
            CXCursorKind::OMPTargetDirective => {},
            CXCursorKind::OMPTeamsDirective => {},
            CXCursorKind::OMPTaskgroupDirective => {},
            CXCursorKind::OMPCancellationPointDirective => {},
            CXCursorKind::OMPCancelDirective => {},
            CXCursorKind::TranslationUnit => {},
            CXCursorKind::UnexposedAttr => {},
            CXCursorKind::IBActionAttr => {},
            CXCursorKind::IBOutletAttr => {},
            CXCursorKind::IBOutletCollectionAttr => {},
            CXCursorKind::CXXFinalAttr => {},
            CXCursorKind::CXXOverrideAttr => {},
            CXCursorKind::AnnotateAttr => {},
            CXCursorKind::AsmLabelAttr => {},
            CXCursorKind::PackedAttr => {},
            CXCursorKind::PureAttr => {},
            CXCursorKind::ConstAttr => {},
            CXCursorKind::NoDuplicateAttr => {},
            CXCursorKind::CUDAConstantAttr => {},
            CXCursorKind::CUDADeviceAttr => {},
            CXCursorKind::CUDAGlobalAttr => {},
            CXCursorKind::CUDAHostAttr => {},
            CXCursorKind::CUDASharedAttr => {},
            CXCursorKind::PreprocessingDirective => {},
            CXCursorKind::MacroDefinition => {},
            CXCursorKind::MacroExpansion => {},
            CXCursorKind::InclusionDirective => {},
            CXCursorKind::ModuleImportDecl => {},
            CXCursorKind::OverloadCandidate => {},
        }
    }

    /// No two variants share a value; every variant's value is recognised by `from_raw`.
    pub proof fn lemma_code(self, other: Self)
        ensures
            self.code() == other.code() ==> self == other,
            Self::is_code(self.code()),
    {
        self.lemma_decode();
        other.lemma_decode();
    }
}

/// The `CXDiagnosticSeverity` values of the libclang C interface.
#[derive(Copy, Clone, Debug, PartialEq, Eq, Hash, Structural)]
pub enum CXDiagnosticSeverity {
    Ignored,
    Note,
    Warning,
    Error,
    Fatal,
}

impl CXDiagnosticSeverity {
    /// The value libclang uses for this value.
    pub open spec fn code(self) -> int {
        match self {
            CXDiagnosticSeverity::Ignored => 0,
            CXDiagnosticSeverity::Note => 1,
            CXDiagnosticSeverity::Warning => 2,
            CXDiagnosticSeverity::Error => 3,
            CXDiagnosticSeverity::Fatal => 4,
        }
    }

    /// Returns the value libclang uses for this value.
    pub fn to_raw(self) -> (raw: i32)
        ensures
            raw == self.code(),
    {
        match self {
            CXDiagnosticSeverity::Ignored => 0,
            CXDiagnosticSeverity::Note => 1,
            CXDiagnosticSeverity::Warning => 2,
            CXDiagnosticSeverity::Error => 3,
            CXDiagnosticSeverity::Fatal => 4,
        }
    }

    /// Whether `raw` is one of the values that `from_raw` recognises.
    pub open spec fn is_code(raw: int) -> bool {
        0 <= raw <= 4
    }

    /// Returns the value that libclang denotes by `raw`, if `raw` is a recognised value.
    pub fn from_raw(raw: i32) -> (result: Option<Self>)
        ensures
            result is Some <==> Self::is_code(raw as int),
            result matches Some(k) ==> k.code() == raw,
    {
        match raw {
            0 => Some(CXDiagnosticSeverity::Ignored),
            1 => Some(CXDiagnosticSeverity::Note),
            2 => Some(CXDiagnosticSeverity::Warning),
            3 => Some(CXDiagnosticSeverity::Error),
            4 => Some(CXDiagnosticSeverity::Fatal),
            _ => None,
        }
    }

    spec fn decode(raw: int) -> Option<Self> {
        if raw == 0 {
            Some(CXDiagnosticSeverity::Ignored)
        } else if raw == 1 {
            Some(CXDiagnosticSeverity::Note)
        } else if raw == 2 {
            Some(CXDiagnosticSeverity::Warning)
        } else if raw == 3 {
            Some(CXDiagnosticSeverity::Error)
        } else if raw == 4 {
            Some(CXDiagnosticSeverity::Fatal)
        } else {
            None
        }
    }

    proof fn lemma_decode(self)
        ensures
            Self::decode(self.code()) == Some(self),
    {
        match self {
            CXDiagnosticSeverity::Ignored => {},
            CXDiagnosticSeverity::Note => {},
            CXDiagnosticSeverity::Warning => {},
            CXDiagnosticSeverity::Error => {},
            CXDiagnosticSeverity::Fatal => {},
        }
    }

    /// No two variants share a value; every variant's value is recognised by `from_raw`.
    pub proof fn lemma_code(self, other: Self)
        ensures
            self.code() == other.code() ==> self == other,
            Self::is_code(self.code()),
    {
        self.lemma_decode();
        other.lemma_decode();
    }
}

/// The `CXErrorCode` values of the libclang C interface.
#[derive(Copy, Clone, Debug, PartialEq, Eq, Hash, Structural)]
pub enum CXErrorCode {
    Success,
    Failure,
    Crashed,
    InvalidArguments,
    ASTReadError,
}

impl CXErrorCode {
    /// The value libclang uses for this value.
    pub open spec fn code(self) -> int {
        match self {
            CXErrorCode::Success => 0,
            CXErrorCode::Failure => 1,
            CXErrorCode::Crashed => 2,
            CXErrorCode::InvalidArguments => 3,
            CXErrorCode::ASTReadError => 4,
        }
    }

    /// Returns the value libclang uses for this value.
    pub fn to_raw(self) -> (raw: i32)
        ensures
            raw == self.code(),
    {
        match self {
            CXErrorCode::Success => 0,
            CXErrorCode::Failure => 1,
            CXErrorCode::Crashed => 2,
            CXErrorCode::InvalidArguments => 3,
            CXErrorCode::ASTReadError => 4,
        }
    }

    /// Whether `raw` is one of the values that `from_raw` recognises.
    pub open spec fn is_code(raw: int) -> bool {
        0 <= raw <= 4
    }

    /// Returns the value that libclang denotes by `raw`, if `raw` is a recognised value.
    pub fn from_raw(raw: i32) -> (result: Option<Self>)
        ensures
            result is Some <==> Self::is_code(raw as int),
            result matches Some(k) ==> k.code() == raw,
    {
        match raw {
            0 => Some(CXErrorCode::Success),
            1 => Some(CXErrorCode::Failure),
            2 => Some(CXErrorCode::Crashed),
            3 => Some(CXErrorCode::InvalidArguments),
            4 => Some(CXErrorCode::ASTReadError),
            _ => None,
        }
    }

    spec fn decode(raw: int) -> Option<Self> {
        if raw == 0 {
            Some(CXErrorCode::Success)
        } else if raw == 1 {
            Some(CXErrorCode::Failure)
        } else if raw == 2 {
            Some(CXErrorCode::Crashed)
        } else if raw == 3 {
            Some(CXErrorCode::InvalidArguments)
        } else if raw == 4 {
            Some(CXErrorCode::ASTReadError)
        } else {
            None
        }
    }

    proof fn lemma_decode(self)
        ensures
            Self::decode(self.code()) == Some(self),
    {
        match self {
            CXErrorCode::Success => {},
            CXErrorCode::Failure => {},
            CXErrorCode::Crashed => {},
            CXErrorCode::InvalidArguments => {},
            CXErrorCode::ASTReadError => {},
        }
    }

    /// No two variants share a value; every variant's value is recognised by `from_raw`.
    pub proof fn lemma_code(self, other: Self)
        ensures
            self.code() == other.code() ==> self == other,
            Self::is_code(self.code()),
    {
        self.lemma_decode();
        other.lemma_decode();
    }
}

/// The `CXIdxAttrKind` values of the libclang C interface.
#[derive(Copy, Clone, Debug, PartialEq, Eq, Hash, Structural)]
pub enum CXIdxAttrKind {
    Unexposed,
    IBAction,
    IBOutlet,
    IBOutletCollection,
}

impl CXIdxAttrKind {
    /// The value libclang uses for this value.
    pub open spec fn code(self) -> int {
        match self {
            CXIdxAttrKind::Unexposed => 0,
            CXIdxAttrKind::IBAction => 1,
            CXIdxAttrKind::IBOutlet => 2,
            CXIdxAttrKind::IBOutletCollection => 3,
        }
    }

    /// Returns the value libclang uses for this value.
    pub fn to_raw(self) -> (raw: i32)
        ensures
            raw == self.code(),
    {
        match self {
            CXIdxAttrKind::Unexposed => 0,
            CXIdxAttrKind::IBAction => 1,
            CXIdxAttrKind::IBOutlet => 2,
            CXIdxAttrKind::IBOutletCollection => 3,
        }
    }

    /// Whether `raw` is one of the values that `from_raw` recognises.
    pub open spec fn is_code(raw: int) -> bool {
        0 <= raw <= 3
    }

    /// Returns the value that libclang denotes by `raw`, if `raw` is a recognised value.
    pub fn from_raw(raw: i32) -> (result: Option<Self>)
        ensures
            result is Some <==> Self::is_code(raw as int),
            result matches Some(k) ==> k.code() == raw,
    {
        match raw {
            0 => Some(CXIdxAttrKind::Unexposed),
            1 => Some(CXIdxAttrKind::IBAction),
            2 => Some(CXIdxAttrKind::IBOutlet),
            3 => Some(CXIdxAttrKind::IBOutletCollection),
            _ => None,
        }
    }

    spec fn decode(raw: int) -> Option<Self> {
        if raw == 0 {
            Some(CXIdxAttrKind::Unexposed)
        } else if raw == 1 {
            Some(CXIdxAttrKind::IBAction)
        } else if raw == 2 {
            Some(CXIdxAttrKind::IBOutlet)
        } else if raw == 3 {
            Some(CXIdxAttrKind::IBOutletCollection)
        } else {
            None
        }
    }

    proof fn lemma_decode(self)
        ensures
            Self::decode(self.code()) == Some(self),
    {
        match self {
            CXIdxAttrKind::Unexposed => {},
            CXIdxAttrKind::IBAction => {},
            CXIdxAttrKind::IBOutlet => {},
            CXIdxAttrKind::IBOutletCollection => {},
        }
    }

    /// No two variants share a value; every variant's value is recognised by `from_raw`.
    pub proof fn lemma_code(self, other: Self)
        ensures
            self.code() == other.code() ==> self == other,
            Self::is_code(self.code()),
    {
        self.lemma_decode();
        other.lemma_decode();
    }
}

/// The `CXIdxEntityCXXTemplateKind` values of the libclang C interface.
#[derive(Copy, Clone, Debug, PartialEq, Eq, Hash, Structural)]
pub enum CXIdxEntityCXXTemplateKind {
    NonTemplate,
    Template,
    TemplatePartialSpecialization,
    TemplateSpecialization,
}

impl CXIdxEntityCXXTemplateKind {
    /// The value libclang uses for this value.
    pub open spec fn code(self) -> int {
        match self {
            CXIdxEntityCXXTemplateKind::NonTemplate => 0,
            CXIdxEntityCXXTemplateKind::Template => 1,
            CXIdxEntityCXXTemplateKind::TemplatePartialSpecialization => 2,
            CXIdxEntityCXXTemplateKind::TemplateSpecialization => 3,
        }
    }

    /// Returns the value libclang uses for this value.
    pub fn to_raw(self) -> (raw: i32)
        ensures
            raw == self.code(),
    {
        match self {
            CXIdxEntityCXXTemplateKind::NonTemplate => 0,
            CXIdxEntityCXXTemplateKind::Template => 1,
            CXIdxEntityCXXTemplateKind::TemplatePartialSpecialization => 2,
            CXIdxEntityCXXTemplateKind::TemplateSpecialization => 3,
        }
    }

    /// Whether `raw` is one of the values that `from_raw` recognises.
    pub open spec fn is_code(raw: int) -> bool {
        0 <= raw <= 3
    }

    /// Returns the value that libclang denotes by `raw`, if `raw` is a recognised value.
    pub fn from_raw(raw: i32) -> (result: Option<Self>)
        ensures
            result is Some <==> Self::is_code(raw as int),
            result matches Some(k) ==> k.code() == raw,
    {
        match raw {
            0 => Some(CXIdxEntityCXXTemplateKind::NonTemplate),
            1 => Some(CXIdxEntityCXXTemplateKind::Template),
            2 => Some(CXIdxEntityCXXTemplateKind::TemplatePartialSpecialization),
            3 => Some(CXIdxEntityCXXTemplateKind::TemplateSpecialization),
            _ => None,
        }
    }

    spec fn decode(raw: int) -> Option<Self> {
        if raw == 0 {
            Some(CXIdxEntityCXXTemplateKind::NonTemplate)
        } else if raw == 1 {
            Some(CXIdxEntityCXXTemplateKind::Template)
        } else if raw == 2 {
            Some(CXIdxEntityCXXTemplateKind::TemplatePartialSpecialization)
        } else if raw == 3 {
            Some(CXIdxEntityCXXTemplateKind::TemplateSpecialization)
        } else {
            None
        }
    }

    proof fn lemma_decode(self)
        ensures
            Self::decode(self.code()) == Some(self),
    {
        match self {
            CXIdxEntityCXXTemplateKind::NonTemplate => {},
            CXIdxEntityCXXTemplateKind::Template => {},
            CXIdxEntityCXXTemplateKind::TemplatePartialSpecialization => {},
            CXIdxEntityCXXTemplateKind::TemplateSpecialization => {},
        }
    }

    /// No two variants share a value; every variant's value is recognised by `from_raw`.
    pub proof fn lemma_code(self, other: Self)
        ensures
            self.code() == other.code() ==> self == other,
            Self::is_code(self.code()),
    {
        self.lemma_decode();
        other.lemma_decode();
    }
}

/// The `CXIdxEntityKind` values of the libclang C interface.
#[derive(Copy, Clone, Debug, PartialEq, Eq, Hash, Structural)]
pub enum CXIdxEntityKind {
    Unexposed,
    Typedef,
    Function,
    Variable,
    Field,
    EnumConstant,
    ObjCClass,
    ObjCProtocol,
    ObjCCategory,
    ObjCInstanceMethod,
    ObjCClassMethod,
    ObjCProperty,
    ObjCIvar,
    Enum,
    Struct,
    Union,
    CXXClass,
    CXXNamespace,
    CXXNamespaceAlias,
    CXXStaticVariable,
    CXXStaticMethod,
    CXXInstanceMethod,
    CXXConstructor,
    CXXDestructor,
    CXXConversionFunction,
    CXXTypeAlias,
    CXXInterface,
}

impl CXIdxEntityKind {
    /// The value libclang uses for this value.
    pub open spec fn code(self) -> int {
        match self {
            CXIdxEntityKind::Unexposed => 0,
            CXIdxEntityKind::Typedef => 1,
            CXIdxEntityKind::Function => 2,
            CXIdxEntityKind::Variable => 3,
            CXIdxEntityKind::Field => 4,
            CXIdxEntityKind::EnumConstant => 5,
            CXIdxEntityKind::ObjCClass => 6,
            CXIdxEntityKind::ObjCProtocol => 7,
            CXIdxEntityKind::ObjCCategory => 8,
            CXIdxEntityKind::ObjCInstanceMethod => 9,
            CXIdxEntityKind::ObjCClassMethod => 10,
            CXIdxEntityKind::ObjCProperty => 11,
            CXIdxEntityKind::ObjCIvar => 12,
            CXIdxEntityKind::Enum => 13,
            CXIdxEntityKind::Struct => 14,
            CXIdxEntityKind::Union => 15,
            CXIdxEntityKind::CXXClass => 16,
            CXIdxEntityKind::CXXNamespace => 17,
            CXIdxEntityKind::CXXNamespaceAlias => 18,
            CXIdxEntityKind::CXXStaticVariable => 19,
            CXIdxEntityKind::CXXStaticMethod => 20,
            CXIdxEntityKind::CXXInstanceMethod => 21,
            CXIdxEntityKind::CXXConstructor => 22,
            CXIdxEntityKind::CXXDestructor => 23,
            CXIdxEntityKind::CXXConversionFunction => 24,
            CXIdxEntityKind::CXXTypeAlias => 25,
            CXIdxEntityKind::CXXInterface => 26,
        }
    }

    /// Returns the value libclang uses for this value.
    pub fn to_raw(self) -> (raw: i32)
        ensures
            raw == self.code(),
    {
        match self {
            CXIdxEntityKind::Unexposed => 0,
            CXIdxEntityKind::Typedef => 1,
            CXIdxEntityKind::Function => 2,
            CXIdxEntityKind::Variable => 3,
            CXIdxEntityKind::Field => 4,
            CXIdxEntityKind::EnumConstant => 5,
            CXIdxEntityKind::ObjCClass => 6,
            CXIdxEntityKind::ObjCProtocol => 7,
            CXIdxEntityKind::ObjCCategory => 8,
            CXIdxEntityKind::ObjCInstanceMethod => 9,
            CXIdxEntityKind::ObjCClassMethod => 10,
            CXIdxEntityKind::ObjCProperty => 11,
            CXIdxEntityKind::ObjCIvar => 12,
            CXIdxEntityKind::Enum => 13,
            CXIdxEntityKind::Struct => 14,
            CXIdxEntityKind::Union => 15,
            CXIdxEntityKind::CXXClass => 16,
            CXIdxEntityKind::CXXNamespace => 17,
            CXIdxEntityKind::CXXNamespaceAlias => 18,
            CXIdxEntityKind::CXXStaticVariable => 19,
            CXIdxEntityKind::CXXStaticMethod => 20,
            CXIdxEntityKind::CXXInstanceMethod => 21,
            CXIdxEntityKind::CXXConstructor => 22,
            CXIdxEntityKind::CXXDestructor => 23,
            CXIdxEntityKind::CXXConversionFunction => 24,
            CXIdxEntityKind::CXXTypeAlias => 25,
            CXIdxEntityKind::CXXInterface => 26,
        }
    }

    /// Whether `raw` is one of the values that `from_raw` recognises.
    pub open spec fn is_code(raw: int) -> bool {
        0 <= raw <= 26
    }

    /// Returns the value that libclang denotes by `raw`, if `raw` is a recognised value.
    pub fn from_raw(raw: i32) -> (result: Option<Self>)
        ensures
            result is Some <==> Self::is_code(raw as int),
            result matches Some(k) ==> k.code() == raw,
    {
        match raw {
            0 => Some(CXIdxEntityKind::Unexposed),
            1 => Some(CXIdxEntityKind::Typedef),
            2 => Some(CXIdxEntityKind::Function),
            3 => Some(CXIdxEntityKind::Variable),
            4 => Some(CXIdxEntityKind::Field),
            5 => Some(CXIdxEntityKind::EnumConstant),
            6 => Some(CXIdxEntityKind::ObjCClass),
            7 => Some(CXIdxEntityKind::ObjCProtocol),
            8 => Some(CXIdxEntityKind::ObjCCategory),
            9 => Some(CXIdxEntityKind::ObjCInstanceMethod),
            10 => Some(CXIdxEntityKind::ObjCClassMethod),
            11 => Some(CXIdxEntityKind::ObjCProperty),
            12 => Some(CXIdxEntityKind::ObjCIvar),
            13 => Some(CXIdxEntityKind::Enum),
            14 => Some(CXIdxEntityKind::Struct),
            15 => Some(CXIdxEntityKind::Union),
            16 => Some(CXIdxEntityKind::CXXClass),
            17 => Some(CXIdxEntityKind::CXXNamespace),
            18 => Some(CXIdxEntityKind::CXXNamespaceAlias),
            19 => Some(CXIdxEntityKind::CXXStaticVariable),
            20 => Some(CXIdxEntityKind::CXXStaticMethod),
            21 => Some(CXIdxEntityKind::CXXInstanceMethod),
            22 => Some(CXIdxEntityKind::CXXConstructor),
            23 => Some(CXIdxEntityKind::CXXDestructor),
            24 => Some(CXIdxEntityKind::CXXConversionFunction),
            25 => Some(CXIdxEntityKind::CXXTypeAlias),
            26 => Some(CXIdxEntityKind::CXXInterface),
            _ => None,
        }
    }

    spec fn decode(raw: int) -> Option<Self> {
        if raw == 0 {
            Some(CXIdxEntityKind::Unexposed)
        } else if raw == 1 {
            Some(CXIdxEntityKind::Typedef)
        } else if raw == 2 {
            Some(CXIdxEntityKind::Function)
        } else if raw == 3 {
            Some(CXIdxEntityKind::Variable)
        } else if raw == 4 {
            Some(CXIdxEntityKind::Field)
        } else if raw == 5 {
            Some(CXIdxEntityKind::EnumConstant)
        } else if raw == 6 {
            Some(CXIdxEntityKind::ObjCClass)
        } else if raw == 7 {
            Some(CXIdxEntityKind::ObjCProtocol)
        } else if raw == 8 {
            Some(CXIdxEntityKind::ObjCCategory)
        } else if raw == 9 {
            Some(CXIdxEntityKind::ObjCInstanceMethod)
        } else if raw == 10 {
            Some(CXIdxEntityKind::ObjCClassMethod)
        } else if raw == 11 {
            Some(CXIdxEntityKind::ObjCProperty)
        } else if raw == 12 {
            Some(CXIdxEntityKind::ObjCIvar)
        } else if raw == 13 {
            Some(CXIdxEntityKind::Enum)
        } else if raw == 14 {
            Some(CXIdxEntityKind::Struct)
        } else if raw == 15 {
            Some(CXIdxEntityKind::Union)
        } else if raw == 16 {
            Some(CXIdxEntityKind::CXXClass)
        } else if raw == 17 {
            Some(CXIdxEntityKind::CXXNamespace)
        } else if raw == 18 {
            Some(CXIdxEntityKind::CXXNamespaceAlias)
        } else if raw == 19 {
            Some(CXIdxEntityKind::CXXStaticVariable)
        } else if raw == 20 {
            Some(CXIdxEntityKind::CXXStaticMethod)
        } else if raw == 21 {
            Some(CXIdxEntityKind::CXXInstanceMethod)
        } else if raw == 22 {
            Some(CXIdxEntityKind::CXXConstructor)
        } else if raw == 23 {
            Some(CXIdxEntityKind::CXXDestructor)
        } else if raw == 24 {
            Some(CXIdxEntityKind::CXXConversionFunction)
        } else if raw == 25 {
            Some(CXIdxEntityKind::CXXTypeAlias)
        } else if raw == 26 {
            Some(CXIdxEntityKind::CXXInterface)
        } else {
            None
        }
    }

    proof fn lemma_decode(self)
        ensures
            Self::decode(self.code()) == Some(self),
    {
        match self {
            CXIdxEntityKind::Unexposed => {},
            CXIdxEntityKind::Typedef => {},
            CXIdxEntityKind::Function => {},
            CXIdxEntityKind::Variable => {},
            CXIdxEntityKind::Field => {},
            CXIdxEntityKind::EnumConstant => {},
            CXIdxEntityKind::ObjCClass => {},
            CXIdxEntityKind::ObjCProtocol => {},
            CXIdxEntityKind::ObjCCategory => {},
            CXIdxEntityKind::ObjCInstanceMethod => {},
            CXIdxEntityKind::ObjCClassMethod => {},
            CXIdxEntityKind::ObjCProperty => {},
            CXIdxEntityKind::ObjCIvar => {},
            CXIdxEntityKind::Enum => {},
            CXIdxEntityKind::Struct => {},
            CXIdxEntityKind::Union => {},
            CXIdxEntityKind::CXXClass => {},
            CXIdxEntityKind::CXXNamespace => {},
            CXIdxEntityKind::CXXNamespaceAlias => {},
            CXIdxEntityKind::CXXStaticVariable => {},
            CXIdxEntityKind::CXXStaticMethod => {},
            CXIdxEntityKind::CXXInstanceMethod => {},
            CXIdxEntityKind::CXXConstructor => {},
            CXIdxEntityKind::CXXDestructor => {},
            CXIdxEntityKind::CXXConversionFunction => {},
            CXIdxEntityKind::CXXTypeAlias => {},
            CXIdxEntityKind::CXXInterface => {},
        }
    }

    /// No two variants share a value; every variant's value is recognised by `from_raw`.
    pub proof fn lemma_code(self, other: Self)
        ensures
            self.code() == other.code() ==> self == other,
            Self::is_code(self.code()),
    {
        self.lemma_decode();
        other.lemma_decode();
    }
}

/// The `CXIdxEntityLanguage` values of the libclang C interface.
#[derive(Copy, Clone, Debug, PartialEq, Eq, Hash, Structural)]
pub enum CXIdxEntityLanguage {
    NoLanguage,
    C,
    ObjC,
    CXX,
}

impl CXIdxEntityLanguage {
    /// The value libclang uses for this value.
    pub open spec fn code(self) -> int {
        match self {
            CXIdxEntityLanguage::NoLanguage => 0,
            CXIdxEntityLanguage::C => 1,
            CXIdxEntityLanguage::ObjC => 2,
            CXIdxEntityLanguage::CXX => 3,
        }
    }

    /// Returns the value libclang uses for this value.
    pub fn to_raw(self) -> (raw: i32)
        ensures
            raw == self.code(),
    {
        match self {
            CXIdxEntityLanguage::NoLanguage => 0,
            CXIdxEntityLanguage::C => 1,
            CXIdxEntityLanguage::ObjC => 2,
            CXIdxEntityLanguage::CXX => 3,
        }
    }

    /// Whether `raw` is one of the values that `from_raw` recognises.
    pub open spec fn is_code(raw: int) -> bool {
        0 <= raw <= 3
    }

    /// Returns the value that libclang denotes by `raw`, if `raw` is a recognised value.
    pub fn from_raw(raw: i32) -> (result: Option<Self>)
        ensures
            result is Some <==> Self::is_code(raw as int),
            result matches Some(k) ==> k.code() == raw,
    {
        match raw {
            0 => Some(CXIdxEntityLanguage::NoLanguage),
            1 => Some(CXIdxEntityLanguage::C),
            2 => Some(CXIdxEntityLanguage::ObjC),
            3 => Some(CXIdxEntityLanguage::CXX),
            _ => None,
        }
    }

    spec fn decode(raw: int) -> Option<Self> {
        if raw == 0 {
            Some(CXIdxEntityLanguage::NoLanguage)
        } else if raw == 1 {
            Some(CXIdxEntityLanguage::C)
        } else if raw == 2 {
            Some(CXIdxEntityLanguage::ObjC)
        } else if raw == 3 {
            Some(CXIdxEntityLanguage::CXX)
        } else {
            None
        }
    }

    proof fn lemma_decode(self)
        ensures
            Self::decode(self.code()) == Some(self),
    {
        match self {
            CXIdxEntityLanguage::NoLanguage => {},
            CXIdxEntityLanguage::C => {},
            CXIdxEntityLanguage::ObjC => {},
            CXIdxEntityLanguage::CXX => {},
        }
    }

    /// No two variants share a value; every variant's value is recognised by `from_raw`.
    pub proof fn lemma_code(self, other: Self)
        ensures
            self.code() == other.code() ==> self == other,
            Self::is_code(self.code()),
    {
        self.lemma_decode();
        other.lemma_decode();
    }
}

/// The `CXIdxEntityRefKind` values of the libclang C interface.
#[derive(Copy, Clone, Debug, PartialEq, Eq, Hash, Structural)]
pub enum CXIdxEntityRefKind {
    Direct,
    Implicit,
}

impl CXIdxEntityRefKind {
    /// The value libclang uses for this value.
    pub open spec fn code(self) -> int {
        match self {
            CXIdxEntityRefKind::Direct => 1,
            CXIdxEntityRefKind::Implicit => 2,
        }
    }

    /// Returns the value libclang uses for this value.
    pub fn to_raw(self) -> (raw: i32)
        ensures
            raw == self.code(),
    {
        match self {
            CXIdxEntityRefKind::Direct => 1,
            CXIdxEntityRefKind::Implicit => 2,
        }
    }

    /// Whether `raw` is one of the values that `from_raw` recognises.
    pub open spec fn is_code(raw: int) -> bool {
        1 <= raw <= 2
    }

    /// Returns the value that libclang denotes by `raw`, if `raw` is a recognised value.
    pub fn from_raw(raw: i32) -> (result: Option<Self>)
        ensures
            result is Some <==> Self::is_code(raw as int),
            result matches Some(k) ==> k.code() == raw,
    {
        match raw {
            1 => Some(CXIdxEntityRefKind::Direct),
            2 => Some(CXIdxEntityRefKind::Implicit),
            _ => None,
        }
    }

    spec fn decode(raw: int) -> Option<Self> {
        if raw == 1 {
            Some(CXIdxEntityRefKind::Direct)
        } else if raw == 2 {
            Some(CXIdxEntityRefKind::Implicit)
        } else {
            None
        }
    }

    proof fn lemma_decode(self)
        ensures
            Self::decode(self.code()) == Some(self),
    {
        match self {
            CXIdxEntityRefKind::Direct => {},
            CXIdxEntityRefKind::Implicit => {},
        }
    }

    /// No two variants share a value; every variant's value is recognised by `from_raw`.
    pub proof fn lemma_code(self, other: Self)
        ensures
            self.code() == other.code() ==> self == other,
            Self::is_code(self.code()),
    {
        self.lemma_decode();
        other.lemma_decode();
    }
}

/// The `CXIdxObjCContainerKind` values of the libclang C interface.
#[derive(Copy, Clone, Debug, PartialEq, Eq, Hash, Structural)]
pub enum CXIdxObjCContainerKind {
    ForwardRef,
    Interface,
    Implementation,
}

impl CXIdxObjCContainerKind {
    /// The value libclang uses for this value.
    pub open spec fn code(self) -> int {
        match self {
            CXIdxObjCContainerKind::ForwardRef => 0,
            CXIdxObjCContainerKind::Interface => 1,
            CXIdxObjCContainerKind::Implementation => 2,
        }
    }

    /// Returns the value libclang uses for this value.
    pub fn to_raw(self) -> (raw: i32)
        ensures
            raw == self.code(),
    {
        match self {
            CXIdxObjCContainerKind::ForwardRef => 0,
            CXIdxObjCContainerKind::Interface => 1,
            CXIdxObjCContainerKind::Implementation => 2,
        }
    }

    /// Whether `raw` is one of the values that `from_raw` recognises.
    pub open spec fn is_code(raw: int) -> bool {
        0 <= raw <= 2
    }

    /// Returns the value that libclang denotes by `raw`, if `raw` is a recognised value.
    pub fn from_raw(raw: i32) -> (result: Option<Self>)
        ensures
            result is Some <==> Self::is_code(raw as int),
            result matches Some(k) ==> k.code() == raw,
    {
        match raw {
            0 => Some(CXIdxObjCContainerKind::ForwardRef),
            1 => Some(CXIdxObjCContainerKind::Interface),
            2 => Some(CXIdxObjCContainerKind::Implementation),
            _ => None,
        }
    }

    spec fn decode(raw: int) -> Option<Self> {
        if raw == 0 {
            Some(CXIdxObjCContainerKind::ForwardRef)
        } else if raw == 1 {
            Some(CXIdxObjCContainerKind::Interface)
        } else if raw == 2 {
            Some(CXIdxObjCContainerKind::Implementation)
        } else {
            None
        }
    }

    proof fn lemma_decode(self)
        ensures
            Self::decode(self.code()) == Some(self),
    {
        match self {
            CXIdxObjCContainerKind::ForwardRef => {},
            CXIdxObjCContainerKind::Interface => {},
            CXIdxObjCContainerKind::Implementation => {},
        }
    }

    /// No two variants share a value; every variant's value is recognised by `from_raw`.
    pub proof fn lemma_code(self, other: Self)
        ensures
            self.code() == other.code() ==> self == other,
            Self::is_code(self.code()),
    {
        self.lemma_decode();
        other.lemma_decode();
    }
}

/// The `CXLanguageKind` values of the libclang C interface.
#[derive(Copy, Clone, Debug, PartialEq, Eq, Hash, Structural)]
pub enum CXLanguageKind {
    Invalid,
    C,
    ObjC,
    CPlusPlus,
}

impl CXLanguageKind {
    /// The value libclang uses for this value.
    pub open spec fn code(self) -> int {
        match self {
            CXLanguageKind::Invalid => 0,
            CXLanguageKind::C => 1,
            CXLanguageKind::ObjC => 2,
            CXLanguageKind::CPlusPlus => 3,
        }
    }

    /// Returns the value libclang uses for this value.
    pub fn to_raw(self) -> (raw: i32)
        ensures
            raw == self.code(),
    {
        match self {
            CXLanguageKind::Invalid => 0,
            CXLanguageKind::C => 1,
            CXLanguageKind::ObjC => 2,
            CXLanguageKind::CPlusPlus => 3,
        }
    }

    /// Whether `raw` is one of the values that `from_raw` recognises.
    pub open spec fn is_code(raw: int) -> bool {
        0 <= raw <= 3
    }

    /// Returns the value that libclang denotes by `raw`, if `raw` is a recognised value.
    pub fn from_raw(raw: i32) -> (result: Option<Self>)
        ensures
            result is Some <==> Self::is_code(raw as int),
            result matches Some(k) ==> k.code() == raw,
    {
        match raw {
            0 => Some(CXLanguageKind::Invalid),
            1 => Some(CXLanguageKind::C),
            2 => Some(CXLanguageKind::ObjC),
            3 => Some(CXLanguageKind::CPlusPlus),
            _ => None,
        }
    }

    spec fn decode(raw: int) -> Option<Self> {
        if raw == 0 {
            Some(CXLanguageKind::Invalid)
        } else if raw == 1 {
            Some(CXLanguageKind::C)
        } else if raw == 2 {
            Some(CXLanguageKind::ObjC)
        } else if raw == 3 {
            Some(CXLanguageKind::CPlusPlus)
        } else {
            None
        }
    }

    proof fn lemma_decode(self)
        ensures
            Self::decode(self.code()) == Some(self),
    {
        match self {
            CXLanguageKind::Invalid => {},
            CXLanguageKind::C => {},
            CXLanguageKind::ObjC => {},
            CXLanguageKind::CPlusPlus => {},
        }
    }

    /// No two variants share a value; every variant's value is recognised by `from_raw`.
    pub proof fn lemma_code(self, other: Self)
        ensures
            self.code() == other.code() ==> self == other,
            Self::is_code(self.code()),
    {
        self.lemma_decode();
        other.lemma_decode();
    }
}

/// The `CXLinkageKind` values of the libclang C interface.
#[derive(Copy, Clone, Debug, PartialEq, Eq, Hash, Structural)]
pub enum CXLinkageKind {
    Invalid,
    NoLinkage,
    Internal,
    UniqueExternal,
    External,
}

impl CXLinkageKind {
    /// The value libclang uses for this value.
    pub open spec fn code(self) -> int {
        match self {
            CXLinkageKind::Invalid => 0,
            CXLinkageKind::NoLinkage => 1,
            CXLinkageKind::Internal => 2,
            CXLinkageKind::UniqueExternal => 3,
            CXLinkageKind::External => 4,
        }
    }

    /// Returns the value libclang uses for this value.
    pub fn to_raw(self) -> (raw: i32)
        ensures
            raw == self.code(),
    {
        match self {
            CXLinkageKind::Invalid => 0,
            CXLinkageKind::NoLinkage => 1,
            CXLinkageKind::Internal => 2,
            CXLinkageKind::UniqueExternal => 3,
            CXLinkageKind::External => 4,
        }
    }

    /// Whether `raw` is one of the values that `from_raw` recognises.
    pub open spec fn is_code(raw: int) -> bool {
        0 <= raw <= 4
    }

    /// Returns the value that libclang denotes by `raw`, if `raw` is a recognised value.
    pub fn from_raw(raw: i32) -> (result: Option<Self>)
        ensures
            result is Some <==> Self::is_code(raw as int),
            result matches Some(k) ==> k.code() == raw,
    {
        match raw {
            0 => Some(CXLinkageKind::Invalid),
            1 => Some(CXLinkageKind::NoLinkage),
            2 => Some(CXLinkageKind::Internal),
            3 => Some(CXLinkageKind::UniqueExternal),
            4 => Some(CXLinkageKind::External),
            _ => None,
        }
    }

    spec fn decode(raw: int) -> Option<Self> {
        if raw == 0 {
            Some(CXLinkageKind::Invalid)
        } else if raw == 1 {
            Some(CXLinkageKind::NoLinkage)
        } else if raw == 2 {
            Some(CXLinkageKind::Internal)
        } else if raw == 3 {
            Some(CXLinkageKind::UniqueExternal)
        } else if raw == 4 {
            Some(CXLinkageKind::External)
        } else {
            None
        }
    }

    proof fn lemma_decode(self)
        ensures
            Self::decode(self.code()) == Some(self),
    {
        match self {
            CXLinkageKind::Invalid => {},
            CXLinkageKind::NoLinkage => {},
            CXLinkageKind::Internal => {},
            CXLinkageKind::UniqueExternal => {},
            CXLinkageKind::External => {},
        }
    }

    /// No two variants share a value; every variant's value is recognised by `from_raw`.
    pub proof fn lemma_code(self, other: Self)
        ensures
            self.code() == other.code() ==> self == other,
            Self::is_code(self.code()),
    {
        self.lemma_decode();
        other.lemma_decode();
    }
}

/// The `CXLoadDiag_Error` values of the libclang C interface.
#[derive(Copy, Clone, Debug, PartialEq, Eq, Hash, Structural)]
pub enum CXLoadDiag_Error {
    NoError,
    Unknown,
    CannotLoad,
    InvalidFile,
}

impl CXLoadDiag_Error {
    /// The value libclang uses for this value.
    pub open spec fn code(self) -> int {
        match self {
            CXLoadDiag_Error::NoError => 0,
            CXLoadDiag_Error::Unknown => 1,
            CXLoadDiag_Error::CannotLoad => 2,
            CXLoadDiag_Error::InvalidFile => 3,
        }
    }

    /// Returns the value libclang uses for this value.
    pub fn to_raw(self) -> (raw: i32)
        ensures
            raw == self.code(),
    {
        match self {
            CXLoadDiag_Error::NoError => 0,
            CXLoadDiag_Error::Unknown => 1,
            CXLoadDiag_Error::CannotLoad => 2,
            CXLoadDiag_Error::InvalidFile => 3,
        }
    }

    /// Whether `raw` is one of the values that `from_raw` recognises.
    pub open spec fn is_code(raw: int) -> bool {
        0 <= raw <= 3
    }

    /// Returns the value that libclang denotes by `raw`, if `raw` is a recognised value.
    pub fn from_raw(raw: i32) -> (result: Option<Self>)
        ensures
            result is Some <==> Self::is_code(raw as int),
            result matches Some(k) ==> k.code() == raw,
    {
        match raw {
            0 => Some(CXLoadDiag_Error::NoError),
            1 => Some(CXLoadDiag_Error::Unknown),
            2 => Some(CXLoadDiag_Error::CannotLoad),
            3 => Some(CXLoadDiag_Error::InvalidFile),
            _ => None,
        }
    }

    spec fn decode(raw: int) -> Option<Self> {
        if raw == 0 {
            Some(CXLoadDiag_Error::NoError)
        } else if raw == 1 {
            Some(CXLoadDiag_Error::Unknown)
        } else if raw == 2 {
            Some(CXLoadDiag_Error::CannotLoad)
        } else if raw == 3 {
            Some(CXLoadDiag_Error::InvalidFile)
        } else {
            None
        }
    }

    proof fn lemma_decode(self)
        ensures
            Self::decode(self.code()) == Some(self),
    {
        match self {
            CXLoadDiag_Error::NoError => {},
            CXLoadDiag_Error::Unknown => {},
            CXLoadDiag_Error::CannotLoad => {},
            CXLoadDiag_Error::InvalidFile => {},
        }
    }

    /// No two variants share a value; every variant's value is recognised by `from_raw`.
    pub proof fn lemma_code(self, other: Self)
        ensures
            self.code() == other.code() ==> self == other,
            Self::is_code(self.code()),
    {
        self.lemma_decode();
        other.lemma_decode();
    }
}

/// The `CXRefQualifierKind` values of the libclang C interface.
#[derive(Copy, Clone, Debug, PartialEq, Eq, Hash, Structural)]
pub enum CXRefQualifierKind {
    NoQualifier,
    LValue,
    RValue,
}

impl CXRefQualifierKind {
    /// The value libclang uses for this value.
    pub open spec fn code(self) -> int {
        match self {
            CXRefQualifierKind::NoQualifier => 0,
            CXRefQualifierKind::LValue => 1,
            CXRefQualifierKind::RValue => 2,
        }
    }

    /// Returns the value libclang uses for this value.
    pub fn to_raw(self) -> (raw: i32)
        ensures
            raw == self.code(),
    {
        match self {
            CXRefQualifierKind::NoQualifier => 0,
            CXRefQualifierKind::LValue => 1,
            CXRefQualifierKind::RValue => 2,
        }
    }

    /// Whether `raw` is one of the values that `from_raw` recognises.
    pub open spec fn is_code(raw: int) -> bool {
        0 <= raw <= 2
    }

    /// Returns the value that libclang denotes by `raw`, if `raw` is a recognised value.
    pub fn from_raw(raw: i32) -> (result: Option<Self>)
        ensures
            result is Some <==> Self::is_code(raw as int),
            result matches Some(k) ==> k.code() == raw,
    {
        match raw {
            0 => Some(CXRefQualifierKind::NoQualifier),
            1 => Some(CXRefQualifierKind::LValue),
            2 => Some(CXRefQualifierKind::RValue),
            _ => None,
        }
    }

    spec fn decode(raw: int) -> Option<Self> {
        if raw == 0 {
            Some(CXRefQualifierKind::NoQualifier)
        } else if raw == 1 {
            Some(CXRefQualifierKind::LValue)
        } else if raw == 2 {
            Some(CXRefQualifierKind::RValue)
        } else {
            None
        }
    }

    proof fn lemma_decode(self)
        ensures
            Self::decode(self.code()) == Some(self),
    {
        match self {
            CXRefQualifierKind::NoQualifier => {},
            CXRefQualifierKind::LValue => {},
            CXRefQualifierKind::RValue => {},
        }
    }

    /// No two variants share a value; every variant's value is recognised by `from_raw`.
    pub proof fn lemma_code(self, other: Self)
        ensures
            self.code() == other.code() ==> self == other,
            Self::is_code(self.code()),
    {
        self.lemma_decode();
        other.lemma_decode();
    }
}

/// The `CXResult` values of the libclang C interface.
#[derive(Copy, Clone, Debug, PartialEq, Eq, Hash, Structural)]
pub enum CXResult {
    Success,
    Invalid,
    VisitBreak,
}

impl CXResult {
    /// The value libclang uses for this value.
    pub open spec fn code(self) -> int {
        match self {
            CXResult::Success => 0,
            CXResult::Invalid => 1,
            CXResult::VisitBreak => 2,
        }
    }

    /// Returns the value libclang uses for this value.
    pub fn to_raw(self) -> (raw: i32)
        ensures
            raw == self.code(),
    {
        match self {
            CXResult::Success => 0,
            CXResult::Invalid => 1,
            CXResult::VisitBreak => 2,
        }
    }

    /// Whether `raw` is one of the values that `from_raw` recognises.
    pub open spec fn is_code(raw: int) -> bool {
        0 <= raw <= 2
    }

    /// Returns the value that libclang denotes by `raw`, if `raw` is a recognised value.
    pub fn from_raw(raw: i32) -> (result: Option<Self>)
        ensures
            result is Some <==> Self::is_code(raw as int),
            result matches Some(k) ==> k.code() == raw,
    {
        match raw {
            0 => Some(CXResult::Success),
            1 => Some(CXResult::Invalid),
            2 => Some(CXResult::VisitBreak),
            _ => None,
        }
    }

    spec fn decode(raw: int) -> Option<Self> {
        if raw == 0 {
            Some(CXResult::Success)
        } else if raw == 1 {
            Some(CXResult::Invalid)
        } else if raw == 2 {
            Some(CXResult::VisitBreak)
        } else {
            None
        }
    }

    proof fn lemma_decode(self)
        ensures
            Self::decode(self.code()) == Some(self),
    {
        match self {
            CXResult::Success => {},
            CXResult::Invalid => {},
            CXResult::VisitBreak => {},
        }
    }

    /// No two variants share a value; every variant's value is recognised by `from_raw`.
    pub proof fn lemma_code(self, other: Self)
        ensures
            self.code() == other.code() ==> self == other,
            Self::is_code(self.code()),
    {
        self.lemma_decode();
        other.lemma_decode();
    }
}

/// The `CXSaveError` values of the libclang C interface.
#[derive(Copy, Clone, Debug, PartialEq, Eq, Hash, Structural)]
pub enum CXSaveError {
    NoError,
    Unknown,
    TranslationErrors,
    InvalidTU,
}

impl CXSaveError {
    /// The value libclang uses for this value.
    pub open spec fn code(self) -> int {
        match self {
            CXSaveError::NoError => 0,
            CXSaveError::Unknown => 1,
            CXSaveError::TranslationErrors => 2,
            CXSaveError::InvalidTU => 3,
        }
    }

    /// Returns the value libclang uses for this value.
    pub fn to_raw(self) -> (raw: i32)
        ensures
            raw == self.code(),
    {
        match self {
            CXSaveError::NoError => 0,
            CXSaveError::Unknown => 1,
            CXSaveError::TranslationErrors => 2,
            CXSaveError::InvalidTU => 3,
        }
    }

    /// Whether `raw` is one of the values that `from_raw` recognises.
    pub open spec fn is_code(raw: int) -> bool {
        0 <= raw <= 3
    }

    /// Returns the value that libclang denotes by `raw`, if `raw` is a recognised value.
    pub fn from_raw(raw: i32) -> (result: Option<Self>)
        ensures
            result is Some <==> Self::is_code(raw as int),
            result matches Some(k) ==> k.code() == raw,
    {
        match raw {
            0 => Some(CXSaveError::NoError),
            1 => Some(CXSaveError::Unknown),
            2 => Some(CXSaveError::TranslationErrors),
            3 => Some(CXSaveError::InvalidTU),
            _ => None,
        }
    }

    spec fn decode(raw: int) -> Option<Self> {
        if raw == 0 {
            Some(CXSaveError::NoError)
        } else if raw == 1 {
            Some(CXSaveError::Unknown)
        } else if raw == 2 {
            Some(CXSaveError::TranslationErrors)
        } else if raw == 3 {
            Some(CXSaveError::InvalidTU)
        } else {
            None
        }
    }

    proof fn lemma_decode(self)
        ensures
            Self::decode(self.code()) == Some(self),
    {
        match self {
            CXSaveError::NoError => {},
            CXSaveError::Unknown => {},
            CXSaveError::TranslationErrors => {},
            CXSaveError::InvalidTU => {},
        }
    }

    /// No two variants share a value; every variant's value is recognised by `from_raw`.
    pub proof fn lemma_code(self, other: Self)
        ensures
            self.code() == other.code() ==> self == other,
            Self::is_code(self.code()),
    {
        self.lemma_decode();
        other.lemma_decode();
    }
}

/// The `CXTUResourceUsageKind` values of the libclang C interface.
#[derive(Copy, Clone, Debug, PartialEq, Eq, Hash, Structural)]
pub enum CXTUResourceUsageKind {
    AST,
    Identifiers,
    Selectors,
    GlobalCompletionResults,
    SourceManagerContentCache,
    AST_SideTables,
    SourceManager_Membuffer_Malloc,
    SourceManager_Membuffer_MMap,
    ExternalASTSource_Membuffer_Malloc,
    ExternalASTSource_Membuffer_MMap,
    Preprocessor,
    PreprocessingRecord,
    SourceManager_DataStructures,
    Preprocessor_HeaderSearch,
}

impl CXTUResourceUsageKind {
    /// The value libclang uses for this value.
    pub open spec fn code(self) -> int {
        match self {
            CXTUResourceUsageKind::AST => 1,
            CXTUResourceUsageKind::Identifiers => 2,
            CXTUResourceUsageKind::Selectors => 3,
            CXTUResourceUsageKind::GlobalCompletionResults => 4,
            CXTUResourceUsageKind::SourceManagerContentCache => 5,
            CXTUResourceUsageKind::AST_SideTables => 6,
            CXTUResourceUsageKind::SourceManager_Membuffer_Malloc => 7,
            CXTUResourceUsageKind::SourceManager_Membuffer_MMap => 8,
            CXTUResourceUsageKind::ExternalASTSource_Membuffer_Malloc => 9,
            CXTUResourceUsageKind::ExternalASTSource_Membuffer_MMap => 10,
            CXTUResourceUsageKind::Preprocessor => 11,
            CXTUResourceUsageKind::PreprocessingRecord => 12,
            CXTUResourceUsageKind::SourceManager_DataStructures => 13,
            CXTUResourceUsageKind::Preprocessor_HeaderSearch => 14,
        }
    }

    /// Returns the value libclang uses for this value.
    pub fn to_raw(self) -> (raw: i32)
        ensures
            raw == self.code(),
    {
        match self {
            CXTUResourceUsageKind::AST => 1,
            CXTUResourceUsageKind::Identifiers => 2,
            CXTUResourceUsageKind::Selectors => 3,
            CXTUResourceUsageKind::GlobalCompletionResults => 4,
            CXTUResourceUsageKind::SourceManagerContentCache => 5,
            CXTUResourceUsageKind::AST_SideTables => 6,
            CXTUResourceUsageKind::SourceManager_Membuffer_Malloc => 7,
            CXTUResourceUsageKind::SourceManager_Membuffer_MMap => 8,
            CXTUResourceUsageKind::ExternalASTSource_Membuffer_Malloc => 9,
            CXTUResourceUsageKind::ExternalASTSource_Membuffer_MMap => 10,
            CXTUResourceUsageKind::Preprocessor => 11,
            CXTUResourceUsageKind::PreprocessingRecord => 12,
            CXTUResourceUsageKind::SourceManager_DataStructures => 13,
            CXTUResourceUsageKind::Preprocessor_HeaderSearch => 14,
        }
    }

    /// Whether `raw` is one of the values that `from_raw` recognises.
    pub open spec fn is_code(raw: int) -> bool {
        1 <= raw <= 14
    }

    /// Returns the value that libclang denotes by `raw`, if `raw` is a recognised value.
    pub fn from_raw(raw: i32) -> (result: Option<Self>)
        ensures
            result is Some <==> Self::is_code(raw as int),
            result matches Some(k) ==> k.code() == raw,
    {
        match raw {
            1 => Some(CXTUResourceUsageKind::AST),
            2 => Some(CXTUResourceUsageKind::Identifiers),
            3 => Some(CXTUResourceUsageKind::Selectors),
            4 => Some(CXTUResourceUsageKind::GlobalCompletionResults),
            5 => Some(CXTUResourceUsageKind::SourceManagerContentCache),
            6 => Some(CXTUResourceUsageKind::AST_SideTables),
            7 => Some(CXTUResourceUsageKind::SourceManager_Membuffer_Malloc),
            8 => Some(CXTUResourceUsageKind::SourceManager_Membuffer_MMap),
            9 => Some(CXTUResourceUsageKind::ExternalASTSource_Membuffer_Malloc),
            10 => Some(CXTUResourceUsageKind::ExternalASTSource_Membuffer_MMap),
            11 => Some(CXTUResourceUsageKind::Preprocessor),
            12 => Some(CXTUResourceUsageKind::PreprocessingRecord),
            13 => Some(CXTUResourceUsageKind::SourceManager_DataStructures),
            14 => Some(CXTUResourceUsageKind::Preprocessor_HeaderSearch),
            _ => None,
        }
    }

    spec fn decode(raw: int) -> Option<Self> {
        if raw == 1 {
            Some(CXTUResourceUsageKind::AST)
        } else if raw == 2 {
            Some(CXTUResourceUsageKind::Identifiers)
        } else if raw == 3 {
            Some(CXTUResourceUsageKind::Selectors)
        } else if raw == 4 {
            Some(CXTUResourceUsageKind::GlobalCompletionResults)
        } else if raw == 5 {
            Some(CXTUResourceUsageKind::SourceManagerContentCache)
        } else if raw == 6 {
            Some(CXTUResourceUsageKind::AST_SideTables)
        } else if raw == 7 {
            Some(CXTUResourceUsageKind::SourceManager_Membuffer_Malloc)
        } else if raw == 8 {
            Some(CXTUResourceUsageKind::SourceManager_Membuffer_MMap)
        } else if raw == 9 {
            Some(CXTUResourceUsageKind::ExternalASTSource_Membuffer_Malloc)
        } else if raw == 10 {
            Some(CXTUResourceUsageKind::ExternalASTSource_Membuffer_MMap)
        } else if raw == 11 {
            Some(CXTUResourceUsageKind::Preprocessor)
        } else if raw == 12 {
            Some(CXTUResourceUsageKind::PreprocessingRecord)
        } else if raw == 13 {
            Some(CXTUResourceUsageKind::SourceManager_DataStructures)
        } else if raw == 14 {
            Some(CXTUResourceUsageKind::Preprocessor_HeaderSearch)
        } else {
            None
        }
    }

    proof fn lemma_decode(self)
        ensures
            Self::decode(self.code()) == Some(self),
    {
        match self {
            CXTUResourceUsageKind::AST => {},
            CXTUResourceUsageKind::Identifiers => {},
            CXTUResourceUsageKind::Selectors => {},
            CXTUResourceUsageKind::GlobalCompletionResults => {},
            CXTUResourceUsageKind::SourceManagerContentCache => {},
            CXTUResourceUsageKind::AST_SideTables => {},
            CXTUResourceUsageKind::SourceManager_Membuffer_Malloc => {},
            CXTUResourceUsageKind::SourceManager_Membuffer_MMap => {},
            CXTUResourceUsageKind::ExternalASTSource_Membuffer_Malloc => {},
            CXTUResourceUsageKind::ExternalASTSource_Membuffer_MMap => {},
            CXTUResourceUsageKind::Preprocessor => {},
            CXTUResourceUsageKind::PreprocessingRecord => {},
            CXTUResourceUsageKind::SourceManager_DataStructures => {},
            CXTUResourceUsageKind::Preprocessor_HeaderSearch => {},
        }
    }

    /// No two variants share a value; every variant's value is recognised by `from_raw`.
    pub proof fn lemma_code(self, other: Self)
        ensures
            self.code() == other.code() ==> self == other,
            Self::is_code(self.code()),
    {
        self.lemma_decode();
        other.lemma_decode();
    }
}

/// The `CXTemplateArgumentKind` values of the libclang C interface.
#[derive(Copy, Clone, Debug, PartialEq, Eq, Hash, Structural)]
pub enum CXTemplateArgumentKind {
    Null,
    Type,
    Declaration,
    NullPtr,
    Integral,
    Template,
    TemplateExpansion,
    Expression,
    Pack,
    Invalid,
}

impl CXTemplateArgumentKind {
    /// The value libclang uses for this value.
    pub open spec fn code(self) -> int {
        match self {
            CXTemplateArgumentKind::Null => 0,
            CXTemplateArgumentKind::Type => 1,
            CXTemplateArgumentKind::Declaration => 2,
            CXTemplateArgumentKind::NullPtr => 3,
            CXTemplateArgumentKind::Integral => 4,
            CXTemplateArgumentKind::Template => 5,
            CXTemplateArgumentKind::TemplateExpansion => 6,
            CXTemplateArgumentKind::Expression => 7,
            CXTemplateArgumentKind::Pack => 8,
            CXTemplateArgumentKind::Invalid => 9,
        }
    }

    /// Returns the value libclang uses for this value.
    pub fn to_raw(self) -> (raw: i32)
        ensures
            raw == self.code(),
    {
        match self {
            CXTemplateArgumentKind::Null => 0,
            CXTemplateArgumentKind::Type => 1,
            CXTemplateArgumentKind::Declaration => 2,
            CXTemplateArgumentKind::NullPtr => 3,
            CXTemplateArgumentKind::Integral => 4,
            CXTemplateArgumentKind::Template => 5,
            CXTemplateArgumentKind::TemplateExpansion => 6,
            CXTemplateArgumentKind::Expression => 7,
            CXTemplateArgumentKind::Pack => 8,
            CXTemplateArgumentKind::Invalid => 9,
        }
    }

    /// Whether `raw` is one of the values that `from_raw` recognises.
    pub open spec fn is_code(raw: int) -> bool {
        0 <= raw <= 9
    }

    /// Returns the value that libclang denotes by `raw`, if `raw` is a recognised value.
    pub fn from_raw(raw: i32) -> (result: Option<Self>)
        ensures
            result is Some <==> Self::is_code(raw as int),
            result matches Some(k) ==> k.code() == raw,
    {
        match raw {
            0 => Some(CXTemplateArgumentKind::Null),
            1 => Some(CXTemplateArgumentKind::Type),
            2 => Some(CXTemplateArgumentKind::Declaration),
            3 => Some(CXTemplateArgumentKind::NullPtr),
            4 => Some(CXTemplateArgumentKind::Integral),
            5 => Some(CXTemplateArgumentKind::Template),
            6 => Some(CXTemplateArgumentKind::TemplateExpansion),
            7 => Some(CXTemplateArgumentKind::Expression),
            8 => Some(CXTemplateArgumentKind::Pack),
            9 => Some(CXTemplateArgumentKind::Invalid),
            _ => None,
        }
    }

    spec fn decode(raw: int) -> Option<Self> {
        if raw == 0 {
            Some(CXTemplateArgumentKind::Null)
        } else if raw == 1 {
            Some(CXTemplateArgumentKind::Type)
        } else if raw == 2 {
            Some(CXTemplateArgumentKind::Declaration)
        } else if raw == 3 {
            Some(CXTemplateArgumentKind::NullPtr)
        } else if raw == 4 {
            Some(CXTemplateArgumentKind::Integral)
        } else if raw == 5 {
            Some(CXTemplateArgumentKind::Template)
        } else if raw == 6 {
            Some(CXTemplateArgumentKind::TemplateExpansion)
        } else if raw == 7 {
            Some(CXTemplateArgumentKind::Expression)
        } else if raw == 8 {
            Some(CXTemplateArgumentKind::Pack)
        } else if raw == 9 {
            Some(CXTemplateArgumentKind::Invalid)
        } else {
            None
        }
    }

    proof fn lemma_decode(self)
        ensures
            Self::decode(self.code()) == Some(self),
    {
        match self {
            CXTemplateArgumentKind::Null => {},
            CXTemplateArgumentKind::Type => {},
            CXTemplateArgumentKind::Declaration => {},
            CXTemplateArgumentKind::NullPtr => {},
            CXTemplateArgumentKind::Integral => {},
            CXTemplateArgumentKind::Template => {},
            CXTemplateArgumentKind::TemplateExpansion => {},
            CXTemplateArgumentKind::Expression => {},
            CXTemplateArgumentKind::Pack => {},
            CXTemplateArgumentKind::Invalid => {},
        }
    }

    /// No two variants share a value; every variant's value is recognised by `from_raw`.
    pub proof fn lemma_code(self, other: Self)
        ensures
            self.code() == other.code() ==> self == other,
            Self::is_code(self.code()),
    {
        self.lemma_decode();
        other.lemma_decode();
    }
}

/// The `CXTokenKind` values of the libclang C interface.
#[derive(Copy, Clone, Debug, PartialEq, Eq, Hash, Structural)]
pub enum CXTokenKind {
    Punctuation,
    Keyword,
    Identifier,
    Literal,
    Comment,
}

impl CXTokenKind {
    /// The value libclang uses for this value.
    pub open spec fn code(self) -> int {
        match self {
            CXTokenKind::Punctuation => 0,
            CXTokenKind::Keyword => 1,
            CXTokenKind::Identifier => 2,
            CXTokenKind::Literal => 3,
            CXTokenKind::Comment => 4,
        }
    }

    /// Returns the value libclang uses for this value.
    pub fn to_raw(self) -> (raw: i32)
        ensures
            raw == self.code(),
    {
        match self {
            CXTokenKind::Punctuation => 0,
            CXTokenKind::Keyword => 1,
            CXTokenKind::Identifier => 2,
            CXTokenKind::Literal => 3,
            CXTokenKind::Comment => 4,
        }
    }

    /// Whether `raw` is one of the values that `from_raw` recognises.
    pub open spec fn is_code(raw: int) -> bool {
        0 <= raw <= 4
    }

    /// Returns the value that libclang denotes by `raw`, if `raw` is a recognised value.
    pub fn from_raw(raw: i32) -> (result: Option<Self>)
        ensures
            result is Some <==> Self::is_code(raw as int),
            result matches Some(k) ==> k.code() == raw,
    {
        match raw {
            0 => Some(CXTokenKind::Punctuation),
            1 => Some(CXTokenKind::Keyword),
            2 => Some(CXTokenKind::Identifier),
            3 => Some(CXTokenKind::Literal),
            4 => Some(CXTokenKind::Comment),
            _ => None,
        }
    }

    spec fn decode(raw: int) -> Option<Self> {
        if raw == 0 {
            Some(CXTokenKind::Punctuation)
        } else if raw == 1 {
            Some(CXTokenKind::Keyword)
        } else if raw == 2 {
            Some(CXTokenKind::Identifier)
        } else if raw == 3 {
            Some(CXTokenKind::Literal)
        } else if raw == 4 {
            Some(CXTokenKind::Comment)
        } else {
            None
        }
    }

    proof fn lemma_decode(self)
        ensures
            Self::decode(self.code()) == Some(self),
    {
        match self {
            CXTokenKind::Punctuation => {},
            CXTokenKind::Keyword => {},
            CXTokenKind::Identifier => {},
            CXTokenKind::Literal => {},
            CXTokenKind::Comment => {},
        }
    }

    /// No two variants share a value; every variant's value is recognised by `from_raw`.
    pub proof fn lemma_code(self, other: Self)
        ensures
            self.code() == other.code() ==> self == other,
            Self::is_code(self.code()),
    {
        self.lemma_decode();
        other.lemma_decode();
    }
}

/// The `CXTypeKind` values of the libclang C interface.
#[derive(Copy, Clone, Debug, PartialEq, Eq, Hash, Structural)]
pub enum CXTypeKind {
    Invalid,
    Unexposed,
    Void,
    Bool,
    Char_U,
    UChar,
    Char16,
    Char32,
    UShort,
    UInt,
    ULong,
    ULongLong,
    UInt128,
    Char_S,
    SChar,
    WChar,
    Short,
    Int,
    Long,
    LongLong,
    Int128,
    Float,
    Double,
    LongDouble,
    NullPtr,
    Overload,
    Dependent,
    ObjCId,
    ObjCClass,
    ObjCSel,
    Complex,
    Pointer,
    BlockPointer,
    LValueReference,
    RValueReference,
    Record,
    Enum,
    Typedef,
    ObjCInterface,
    ObjCObjectPointer,
    FunctionNoProto,
    FunctionProto,
    ConstantArray,
    Vector,
    IncompleteArray,
    VariableArray,
    DependentSizedArray,
    MemberPointer,
}

impl CXTypeKind {
    /// The value libclang uses for this value.
    pub open spec fn code(self) -> int {
        match self {
            CXTypeKind::Invalid => 0,
            CXTypeKind::Unexposed => 1,
            CXTypeKind::Void => 2,
            CXTypeKind::Bool => 3,
            CXTypeKind::Char_U => 4,
            CXTypeKind::UChar => 5,
            CXTypeKind::Char16 => 6,
            CXTypeKind::Char32 => 7,
            CXTypeKind::UShort => 8,
            CXTypeKind::UInt => 9,
            CXTypeKind::ULong => 10,
            CXTypeKind::ULongLong => 11,
            CXTypeKind::UInt128 => 12,
            CXTypeKind::Char_S => 13,
            CXTypeKind::SChar => 14,
            CXTypeKind::WChar => 15,
            CXTypeKind::Short => 16,
            CXTypeKind::Int => 17,
            CXTypeKind::Long => 18,
            CXTypeKind::LongLong => 19,
            CXTypeKind::Int128 => 20,
            CXTypeKind::Float => 21,
            CXTypeKind::Double => 22,
            CXTypeKind::LongDouble => 23,
            CXTypeKind::NullPtr => 24,
            CXTypeKind::Overload => 25,
            CXTypeKind::Dependent => 26,
            CXTypeKind::ObjCId => 27,
            CXTypeKind::ObjCClass => 28,
            CXTypeKind::ObjCSel => 29,
            CXTypeKind::Complex => 100,
            CXTypeKind::Pointer => 101,
            CXTypeKind::BlockPointer => 102,
            CXTypeKind::LValueReference => 103,
            CXTypeKind::RValueReference => 104,
            CXTypeKind::Record => 105,
            CXTypeKind::Enum => 106,
            CXTypeKind::Typedef => 107,
            CXTypeKind::ObjCInterface => 108,
            CXTypeKind::ObjCObjectPointer => 109,
            CXTypeKind::FunctionNoProto => 110,
            CXTypeKind::FunctionProto => 111,
            CXTypeKind::ConstantArray => 112,
            CXTypeKind::Vector => 113,
            CXTypeKind::IncompleteArray => 114,
            CXTypeKind::VariableArray => 115,
            CXTypeKind::DependentSizedArray => 116,
            CXTypeKind::MemberPointer => 117,
        }
    }

    /// Returns the value libclang uses for this value.
    pub fn to_raw(self) -> (raw: i32)
        ensures
            raw == self.code(),
    {
        match self {
            CXTypeKind::Invalid => 0,
            CXTypeKind::Unexposed => 1,
            CXTypeKind::Void => 2,
            CXTypeKind::Bool => 3,
            CXTypeKind::Char_U => 4,
            CXTypeKind::UChar => 5,
            CXTypeKind::Char16 => 6,
            CXTypeKind::Char32 => 7,
            CXTypeKind::UShort => 8,
            CXTypeKind::UInt => 9,
            CXTypeKind::ULong => 10,
            CXTypeKind::ULongLong => 11,
            CXTypeKind::UInt128 => 12,
            CXTypeKind::Char_S => 13,
            CXTypeKind::SChar => 14,
            CXTypeKind::WChar => 15,
            CXTypeKind::Short => 16,
            CXTypeKind::Int => 17,
            CXTypeKind::Long => 18,
            CXTypeKind::LongLong => 19,
            CXTypeKind::Int128 => 20,
            CXTypeKind::Float => 21,
            CXTypeKind::Double => 22,
            CXTypeKind::LongDouble => 23,
            CXTypeKind::NullPtr => 24,
            CXTypeKind::Overload => 25,
            CXTypeKind::Dependent => 26,
            CXTypeKind::ObjCId => 27,
            CXTypeKind::ObjCClass => 28,
            CXTypeKind::ObjCSel => 29,
            CXTypeKind::Complex => 100,
            CXTypeKind::Pointer => 101,
            CXTypeKind::BlockPointer => 102,
            CXTypeKind::LValueReference => 103,
            CXTypeKind::RValueReference => 104,
            CXTypeKind::Record => 105,
            CXTypeKind::Enum => 106,
            CXTypeKind::Typedef => 107,
            CXTypeKind::ObjCInterface => 108,
            CXTypeKind::ObjCObjectPointer => 109,
            CXTypeKind::FunctionNoProto => 110,
            CXTypeKind::FunctionProto => 111,
            CXTypeKind::ConstantArray => 112,
            CXTypeKind::Vector => 113,
            CXTypeKind::IncompleteArray => 114,
            CXTypeKind::VariableArray => 115,
            CXTypeKind::DependentSizedArray => 116,
            CXTypeKind::MemberPointer => 117,
        }
    }

    /// Whether `raw` is one of the values that `from_raw` recognises.
    pub open spec fn is_code(raw: int) -> bool {
        ||| 0 <= raw <= 29
        ||| 100 <= raw <= 117
    }

    /// Returns the value that libclang denotes by `raw`, if `raw` is a recognised value.
    pub fn from_raw(raw: i32) -> (result: Option<Self>)
        ensures
            result is Some <==> Self::is_code(raw as int),
            result matches Some(k) ==> k.code() == raw,
    {
        match raw {
            0 => Some(CXTypeKind::Invalid),
            1 => Some(CXTypeKind::Unexposed),
            2 => Some(CXTypeKind::Void),
            3 => Some(CXTypeKind::Bool),
            4 => Some(CXTypeKind::Char_U),
            5 => Some(CXTypeKind::UChar),
            6 => Some(CXTypeKind::Char16),
            7 => Some(CXTypeKind::Char32),
            8 => Some(CXTypeKind::UShort),
            9 => Some(CXTypeKind::UInt),
            10 => Some(CXTypeKind::ULong),
            11 => Some(CXTypeKind::ULongLong),
            12 => Some(CXTypeKind::UInt128),
            13 => Some(CXTypeKind::Char_S),
            14 => Some(CXTypeKind::SChar),
            15 => Some(CXTypeKind::WChar),
            16 => Some(CXTypeKind::Short),
            17 => Some(CXTypeKind::Int),
            18 => Some(CXTypeKind::Long),
            19 => Some(CXTypeKind::LongLong),
            20 => Some(CXTypeKind::Int128),
            21 => Some(CXTypeKind::Float),
            22 => Some(CXTypeKind::Double),
            23 => Some(CXTypeKind::LongDouble),
            24 => Some(CXTypeKind::NullPtr),
            25 => Some(CXTypeKind::Overload),
            26 => Some(CXTypeKind::Dependent),
            27 => Some(CXTypeKind::ObjCId),
            28 => Some(CXTypeKind::ObjCClass),
            29 => Some(CXTypeKind::ObjCSel),
            100 => Some(CXTypeKind::Complex),
            101 => Some(CXTypeKind::Pointer),
            102 => Some(CXTypeKind::BlockPointer),
            103 => Some(CXTypeKind::LValueReference),
            104 => Some(CXTypeKind::RValueReference),
            105 => Some(CXTypeKind::Record),
            106 => Some(CXTypeKind::Enum),
            107 => Some(CXTypeKind::Typedef),
            108 => Some(CXTypeKind::ObjCInterface),
            109 => Some(CXTypeKind::ObjCObjectPointer),
            110 => Some(CXTypeKind::FunctionNoProto),
            111 => Some(CXTypeKind::FunctionProto),
            112 => Some(CXTypeKind::ConstantArray),
            113 => Some(CXTypeKind::Vector),
            114 => Some(CXTypeKind::IncompleteArray),
            115 => Some(CXTypeKind::VariableArray),
            116 => Some(CXTypeKind::DependentSizedArray),
            117 => Some(CXTypeKind::MemberPointer),
            _ => None,
        }
    }

    spec fn decode(raw: int) -> Option<Self> {
        if raw == 0 {
            Some(CXTypeKind::Invalid)
        } else if raw == 1 {
            Some(CXTypeKind::Unexposed)
        } else if raw == 2 {
            Some(CXTypeKind::Void)
        } else if raw == 3 {
            Some(CXTypeKind::Bool)
        } else if raw == 4 {
            Some(CXTypeKind::Char_U)
        } else if raw == 5 {
            Some(CXTypeKind::UChar)
        } else if raw == 6 {
            Some(CXTypeKind::Char16)
        } else if raw == 7 {
            Some(CXTypeKind::Char32)
        } else if raw == 8 {
            Some(CXTypeKind::UShort)
        } else if raw == 9 {
            Some(CXTypeKind::UInt)
        } else if raw == 10 {
            Some(CXTypeKind::ULong)
        } else if raw == 11 {
            Some(CXTypeKind::ULongLong)
        } else if raw == 12 {
            Some(CXTypeKind::UInt128)
        } else if raw == 13 {
            Some(CXTypeKind::Char_S)
        } else if raw == 14 {
            Some(CXTypeKind::SChar)
        } else if raw == 15 {
            Some(CXTypeKind::WChar)
        } else if raw == 16 {
            Some(CXTypeKind::Short)
        } else if raw == 17 {
            Some(CXTypeKind::Int)
        } else if raw == 18 {
            Some(CXTypeKind::Long)
        } else if raw == 19 {
            Some(CXTypeKind::LongLong)
        } else if raw == 20 {
            Some(CXTypeKind::Int128)
        } else if raw == 21 {
            Some(CXTypeKind::Float)
        } else if raw == 22 {
            Some(CXTypeKind::Double)
        } else if raw == 23 {
            Some(CXTypeKind::LongDouble)
        } else if raw == 24 {
            Some(CXTypeKind::NullPtr)
        } else if raw == 25 {
            Some(CXTypeKind::Overload)
        } else if raw == 26 {
            Some(CXTypeKind::Dependent)
        } else if raw == 27 {
            Some(CXTypeKind::ObjCId)
        } else if raw == 28 {
            Some(CXTypeKind::ObjCClass)
        } else if raw == 29 {
            Some(CXTypeKind::ObjCSel)
        } else if raw == 100 {
            Some(CXTypeKind::Complex)
        } else if raw == 101 {
            Some(CXTypeKind::Pointer)
        } else if raw == 102 {
            Some(CXTypeKind::BlockPointer)
        } else if raw == 103 {
            Some(CXTypeKind::LValueReference)
        } else if raw == 104 {
            Some(CXTypeKind::RValueReference)
        } else if raw == 105 {
            Some(CXTypeKind::Record)
        } else if raw == 106 {
            Some(CXTypeKind::Enum)
        } else if raw == 107 {
            Some(CXTypeKind::Typedef)
        } else if raw == 108 {
            Some(CXTypeKind::ObjCInterface)
        } else if raw == 109 {
            Some(CXTypeKind::ObjCObjectPointer)
        } else if raw == 110 {
            Some(CXTypeKind::FunctionNoProto)
        } else if raw == 111 {
            Some(CXTypeKind::FunctionProto)
        } else if raw == 112 {
            Some(CXTypeKind::ConstantArray)
        } else if raw == 113 {
            Some(CXTypeKind::Vector)
        } else if raw == 114 {
            Some(CXTypeKind::IncompleteArray)
        } else if raw == 115 {
            Some(CXTypeKind::VariableArray)
        } else if raw == 116 {
            Some(CXTypeKind::DependentSizedArray)
        } else if raw == 117 {
            Some(CXTypeKind::MemberPointer)
        } else {
            None
        }
    }

    proof fn lemma_decode(self)
        ensures
            Self::decode(self.code()) == Some(self),
    {
        match self {
            CXTypeKind::Invalid => {},
            CXTypeKind::Unexposed => {},
            CXTypeKind::Void => {},
            CXTypeKind::Bool => {},
            CXTypeKind::Char_U => {},
            CXTypeKind::UChar => {},
            CXTypeKind::Char16 => {},
            CXTypeKind::Char32 => {},
            CXTypeKind::UShort => {},
            CXTypeKind::UInt => {},
            CXTypeKind::ULong => {},
            CXTypeKind::ULongLong => {},
            CXTypeKind::UInt128 => {},
            CXTypeKind::Char_S => {},
            CXTypeKind::SChar => {},
            CXTypeKind::WChar => {},
            CXTypeKind::Short => {},
            CXTypeKind::Int => {},
            CXTypeKind::Long => {},
            CXTypeKind::LongLong => {},
            CXTypeKind::Int128 => {},
            CXTypeKind::Float => {},
            CXTypeKind::Double => {},
            CXTypeKind::LongDouble => {},
            CXTypeKind::NullPtr => {},
            CXTypeKind::Overload => {},
            CXTypeKind::Dependent => {},
            CXTypeKind::ObjCId => {},
            CXTypeKind::ObjCClass => {},
            CXTypeKind::ObjCSel => {},
            CXTypeKind::Complex => {},
            CXTypeKind::Pointer => {},
            CXTypeKind::BlockPointer => {},
            CXTypeKind::LValueReference => {},
            CXTypeKind::RValueReference => {},
            CXTypeKind::Record => {},
            CXTypeKind::Enum => {},
            CXTypeKind::Typedef => {},
            CXTypeKind::ObjCInterface => {},
            CXTypeKind::ObjCObjectPointer => {},
            CXTypeKind::FunctionNoProto => {},
            CXTypeKind::FunctionProto => {},
            CXTypeKind::ConstantArray => {},
            CXTypeKind::Vector => {},
            CXTypeKind::IncompleteArray => {},
            CXTypeKind::VariableArray => {},
            CXTypeKind::DependentSizedArray => {},
            CXTypeKind::MemberPointer => {},
        }
    }

    /// No two variants share a value; every variant's value is recognised by `from_raw`.
    pub proof fn lemma_code(self, other: Self)
        ensures
            self.code() == other.code() ==> self == other,
            Self::is_code(self.code()),
    {
        self.lemma_decode();
        other.lemma_decode();
    }
}

/// The `CXTypeLayoutError` values of the libclang C interface.
#[derive(Copy, Clone, Debug, PartialEq, Eq, Hash, Structural)]
pub enum CXTypeLayoutError {
    Invalid,
    Incomplete,
    Dependent,
    NotConstantSize,
    InvalidFieldName,
}

impl CXTypeLayoutError {
    /// The value libclang uses for this value.
    pub open spec fn code(self) -> int {
        match self {
            CXTypeLayoutError::Invalid => -1,
            CXTypeLayoutError::Incomplete => -2,
            CXTypeLayoutError::Dependent => -3,
            CXTypeLayoutError::NotConstantSize => -4,
            CXTypeLayoutError::InvalidFieldName => -5,
        }
    }

    /// Returns the value libclang uses for this value.
    pub fn to_raw(self) -> (raw: i32)
        ensures
            raw == self.code(),
    {
        match self {
            CXTypeLayoutError::Invalid => -1,
            CXTypeLayoutError::Incomplete => -2,
            CXTypeLayoutError::Dependent => -3,
            CXTypeLayoutError::NotConstantSize => -4,
            CXTypeLayoutError::InvalidFieldName => -5,
        }
    }

    /// Whether `raw` is one of the values that `from_raw` recognises.
    pub open spec fn is_code(raw: int) -> bool {
        -5 <= raw <= -1
    }

    /// Returns the value that libclang denotes by `raw`, if `raw` is a recognised value.
    pub fn from_raw(raw: i32) -> (result: Option<Self>)
        ensures
            result is Some <==> Self::is_code(raw as int),
            result matches Some(k) ==> k.code() == raw,
    {
        match raw {
            -5 => Some(CXTypeLayoutError::InvalidFieldName),
            -4 => Some(CXTypeLayoutError::NotConstantSize),
            -3 => Some(CXTypeLayoutError::Dependent),
            -2 => Some(CXTypeLayoutError::Incomplete),
            -1 => Some(CXTypeLayoutError::Invalid),
            _ => None,
        }
    }

    spec fn decode(raw: int) -> Option<Self> {
        if raw == -1 {
            Some(CXTypeLayoutError::Invalid)
        } else if raw == -2 {
            Some(CXTypeLayoutError::Incomplete)
        } else if raw == -3 {
            Some(CXTypeLayoutError::Dependent)
        } else if raw == -4 {
            Some(CXTypeLayoutError::NotConstantSize)
        } else if raw == -5 {
            Some(CXTypeLayoutError::InvalidFieldName)
        } else {
            None
        }
    }

    proof fn lemma_decode(self)
        ensures
            Self::decode(self.code()) == Some(self),
    {
        match self {
            CXTypeLayoutError::Invalid => {},
            CXTypeLayoutError::Incomplete => {},
            CXTypeLayoutError::Dependent => {},
            CXTypeLayoutError::NotConstantSize => {},
            CXTypeLayoutError::InvalidFieldName => {},
        }
    }

    /// No two variants share a value; every variant's value is recognised by `from_raw`.
    pub proof fn lemma_code(self, other: Self)
        ensures
            self.code() == other.code() ==> self == other,
            Self::is_code(self.code()),
    {
        self.lemma_decode();
        other.lemma_decode();
    }
}

/// The `CXVisitorResult` values of the libclang C interface.
#[derive(Copy, Clone, Debug, PartialEq, Eq, Hash, Structural)]
pub enum CXVisitorResult {
    Break,
    Continue,
}

impl CXVisitorResult {
    /// The value libclang uses for this value.
    pub open spec fn code(self) -> int {
        match self {
            CXVisitorResult::Break => 0,
            CXVisitorResult::Continue => 1,
        }
    }

    /// Returns the value libclang uses for this value.
    pub fn to_raw(self) -> (raw: i32)
        ensures
            raw == self.code(),
    {
        match self {
            CXVisitorResult::Break => 0,
            CXVisitorResult::Continue => 1,
        }
    }

    /// Whether `raw` is one of the values that `from_raw` recognises.
    pub open spec fn is_code(raw: int) -> bool {
        0 <= raw <= 1
    }

    /// Returns the value that libclang denotes by `raw`, if `raw` is a recognised value.
    pub fn from_raw(raw: i32) -> (result: Option<Self>)
        ensures
            result is Some <==> Self::is_code(raw as int),
            result matches Some(k) ==> k.code() == raw,
    {
        match raw {
            0 => Some(CXVisitorResult::Break),
            1 => Some(CXVisitorResult::Continue),
            _ => None,
        }
    }

    spec fn decode(raw: int) -> Option<Self> {
        if raw == 0 {
            Some(CXVisitorResult::Break)
        } else if raw == 1 {
            Some(CXVisitorResult::Continue)
        } else {
            None
        }
    }

    proof fn lemma_decode(self)
        ensures
            Self::decode(self.code()) == Some(self),
    {
        match self {
            CXVisitorResult::Break => {},
            CXVisitorResult::Continue => {},
        }
    }

    /// No two variants share a value; every variant's value is recognised by `from_raw`.
    pub proof fn lemma_code(self, other: Self)
        ensures
            self.code() == other.code() ==> self == other,
            Self::is_code(self.code()),
    {
        self.lemma_decode();
        other.lemma_decode();
    }
}

/// The `CX_CXXAccessSpecifier` values of the libclang C interface.
#[derive(Copy, Clone, Debug, PartialEq, Eq, Hash, Structural)]
pub enum CX_CXXAccessSpecifier {
    CXXInvalidAccessSpecifier,
    CXXPublic,
    CXXProtected,
    CXXPrivate,
}

impl CX_CXXAccessSpecifier {
    /// The value libclang uses for this value.
    pub open spec fn code(self) -> int {
        match self {
            CX_CXXAccessSpecifier::CXXInvalidAccessSpecifier => 0,
            CX_CXXAccessSpecifier::CXXPublic => 1,
            CX_CXXAccessSpecifier::CXXProtected => 2,
            CX_CXXAccessSpecifier::CXXPrivate => 3,
        }
    }

    /// Returns the value libclang uses for this value.
    pub fn to_raw(self) -> (raw: i32)
        ensures
            raw == self.code(),
    {
        match self {
            CX_CXXAccessSpecifier::CXXInvalidAccessSpecifier => 0,
            CX_CXXAccessSpecifier::CXXPublic => 1,
            CX_CXXAccessSpecifier::CXXProtected => 2,
            CX_CXXAccessSpecifier::CXXPrivate => 3,
        }
    }

    /// Whether `raw` is one of the values that `from_raw` recognises.
    pub open spec fn is_code(raw: int) -> bool {
        0 <= raw <= 3
    }

    /// Returns the value that libclang denotes by `raw`, if `raw` is a recognised value.
    pub fn from_raw(raw: i32) -> (result: Option<Self>)
        ensures
            result is Some <==> Self::is_code(raw as int),
            result matches Some(k) ==> k.code() == raw,
    {
        match raw {
            0 => Some(CX_CXXAccessSpecifier::CXXInvalidAccessSpecifier),
            1 => Some(CX_CXXAccessSpecifier::CXXPublic),
            2 => Some(CX_CXXAccessSpecifier::CXXProtected),
            3 => Some(CX_CXXAccessSpecifier::CXXPrivate),
            _ => None,
        }
    }

    spec fn decode(raw: int) -> Option<Self> {
        if raw == 0 {
            Some(CX_CXXAccessSpecifier::CXXInvalidAccessSpecifier)
        } else if raw == 1 {
            Some(CX_CXXAccessSpecifier::CXXPublic)
        } else if raw == 2 {
            Some(CX_CXXAccessSpecifier::CXXProtected)
        } else if raw == 3 {
            Some(CX_CXXAccessSpecifier::CXXPrivate)
        } else {
            None
        }
    }

    proof fn lemma_decode(self)
        ensures
            Self::decode(self.code()) == Some(self),
    {
        match self {
            CX_CXXAccessSpecifier::CXXInvalidAccessSpecifier => {},
            CX_CXXAccessSpecifier::CXXPublic => {},
            CX_CXXAccessSpecifier::CXXProtected => {},
            CX_CXXAccessSpecifier::CXXPrivate => {},
        }
    }

    /// No two variants share a value; every variant's value is recognised by `from_raw`.
    pub proof fn lemma_code(self, other: Self)
        ensures
            self.code() == other.code() ==> self == other,
            Self::is_code(self.code()),
    {
        self.lemma_decode();
        other.lemma_decode();
    }
}

/// The `CX_StorageClass` values of the libclang C interface.
#[derive(Copy, Clone, Debug, PartialEq, Eq, Hash, Structural)]
pub enum CX_StorageClass {
    SC_Invalid,
    SC_None,
    SC_Extern,
    SC_Static,
    SC_PrivateExtern,
    SC_OpenCLWorkGroupLocal,
    SC_Auto,
    SC_Register,
}

impl CX_StorageClass {
    /// The value libclang uses for this value.
    pub open spec fn code(self) -> int {
        match self {
            CX_StorageClass::SC_Invalid => 0,
            CX_StorageClass::SC_None => 1,
            CX_StorageClass::SC_Extern => 2,
            CX_StorageClass::SC_Static => 3,
            CX_StorageClass::SC_PrivateExtern => 4,
            CX_StorageClass::SC_OpenCLWorkGroupLocal => 5,
            CX_StorageClass::SC_Auto => 6,
            CX_StorageClass::SC_Register => 7,
        }
    }

    /// Returns the value libclang uses for this value.
    pub fn to_raw(self) -> (raw: i32)
        ensures
            raw == self.code(),
    {
        match self {
            CX_StorageClass::SC_Invalid => 0,
            CX_StorageClass::SC_None => 1,
            CX_StorageClass::SC_Extern => 2,
            CX_StorageClass::SC_Static => 3,
            CX_StorageClass::SC_PrivateExtern => 4,
            CX_StorageClass::SC_OpenCLWorkGroupLocal => 5,
            CX_StorageClass::SC_Auto => 6,
            CX_StorageClass::SC_Register => 7,
        }
    }

    /// Whether `raw` is one of the values that `from_raw` recognises.
    pub open spec fn is_code(raw: int) -> bool {
        0 <= raw <= 7
    }

    /// Returns the value that libclang denotes by `raw`, if `raw` is a recognised value.
    pub fn from_raw(raw: i32) -> (result: Option<Self>)
        ensures
            result is Some <==> Self::is_code(raw as int),
            result matches Some(k) ==> k.code() == raw,
    {
        match raw {
            0 => Some(CX_StorageClass::SC_Invalid),
            1 => Some(CX_StorageClass::SC_None),
            2 => Some(CX_StorageClass::SC_Extern),
            3 => Some(CX_StorageClass::SC_Static),
            4 => Some(CX_StorageClass::SC_PrivateExtern),
            5 => Some(CX_StorageClass::SC_OpenCLWorkGroupLocal),
            6 => Some(CX_StorageClass::SC_Auto),
            7 => Some(CX_StorageClass::SC_Register),
            _ => None,
        }
    }

    spec fn decode(raw: int) -> Option<Self> {
        if raw == 0 {
            Some(CX_StorageClass::SC_Invalid)
        } else if raw == 1 {
            Some(CX_StorageClass::SC_None)
        } else if raw == 2 {
            Some(CX_StorageClass::SC_Extern)
        } else if raw == 3 {
            Some(CX_StorageClass::SC_Static)
        } else if raw == 4 {
            Some(CX_StorageClass::SC_PrivateExtern)
        } else if raw == 5 {
            Some(CX_StorageClass::SC_OpenCLWorkGroupLocal)
        } else if raw == 6 {
            Some(CX_StorageClass::SC_Auto)
        } else if raw == 7 {
            Some(CX_StorageClass::SC_Register)
        } else {
            None
        }
    }

    proof fn lemma_decode(self)
        ensures
            Self::decode(self.code()) == Some(self),
    {
        match self {
            CX_StorageClass::SC_Invalid => {},
            CX_StorageClass::SC_None => {},
            CX_StorageClass::SC_Extern => {},
            CX_StorageClass::SC_Static => {},
            CX_StorageClass::SC_PrivateExtern => {},
            CX_StorageClass::SC_OpenCLWorkGroupLocal => {},
            CX_StorageClass::SC_Auto => {},
            CX_StorageClass::SC_Register => {},
        }
    }

    /// No two variants share a value; every variant's value is recognised by `from_raw`.
    pub proof fn lemma_code(self, other: Self)
        ensures
            self.code() == other.code() ==> self == other,
            Self::is_code(self.code()),
    {
        self.lemma_decode();
        other.lemma_decode();
    }
}


impl CXAvailabilityKind {
    /// Each variant stands for libclang's value of the same name: the values libclang's C
    /// interface gives them.
    pub proof fn lemma_libclang_values()
        ensures
            CXAvailabilityKind::Available.code() == 0,
            CXAvailabilityKind::Deprecated.code() == 1,
            CXAvailabilityKind::NotAvailable.code() == 2,
            CXAvailabilityKind::NotAccessible.code() == 3,
    {
    }
}

impl CXCallingConv {
    /// Each variant stands for libclang's value of the same name: the values libclang's C
    /// interface gives them.
    pub proof fn lemma_libclang_values()
        ensures
            CXCallingConv::Default.code() == 0,
            CXCallingConv::C.code() == 1,
            CXCallingConv::X86StdCall.code() == 2,
            CXCallingConv::X86FastCall.code() == 3,
            CXCallingConv::X86ThisCall.code() == 4,
            CXCallingConv::X86Pascal.code() == 5,
            CXCallingConv::AAPCS.code() == 6,
            CXCallingConv::AAPCS_VFP.code() == 7,
            CXCallingConv::IntelOclBicc.code() == 9,
            CXCallingConv::X86_64Win64.code() == 10,
            CXCallingConv::X86_64SysV.code() == 11,
            CXCallingConv::X86VectorCall.code() == 12,
            CXCallingConv::Invalid.code() == 100,
            CXCallingConv::Unexposed.code() == 200,
    {
    }
}

impl CXChildVisitResult {
    /// Each variant stands for libclang's value of the same name: the values libclang's C
    /// interface gives them.
    pub proof fn lemma_libclang_values()
        ensures
            CXChildVisitResult::Break.code() == 0,
            CXChildVisitResult::Continue.code() == 1,
            CXChildVisitResult::Recurse.code() == 2,
    {
    }
}

impl CXCompilationDatabase_Error {
    /// Each variant stands for libclang's value of the same name: the values libclang's C
    /// interface gives them.
    pub proof fn lemma_libclang_values()
        ensures
            CXCompilationDatabase_Error::NoError.code() == 0,
            CXCompilationDatabase_Error::CanNotLoadDatabase.code() == 1,
    {
    }
}

impl CXCompletionChunkKind {
    /// Each variant stands for libclang's value of the same name: the values libclang's C
    /// interface gives them.
    pub proof fn lemma_libclang_values()
        ensures
            CXCompletionChunkKind::Optional.code() == 0,
            CXCompletionChunkKind::TypedText.code() == 1,
            CXCompletionChunkKind::Text.code() == 2,
            CXCompletionChunkKind::Placeholder.code() == 3,
            CXCompletionChunkKind::Informative.code() == 4,
            CXCompletionChunkKind::CurrentParameter.code() == 5,
            CXCompletionChunkKind::LeftParen.code() == 6,
            CXCompletionChunkKind::RightParen.code() == 7,
            CXCompletionChunkKind::LeftBracket.code() == 8,
            CXCompletionChunkKind::RightBracket.code() == 9,
            CXCompletionChunkKind::LeftBrace.code() == 10,
            CXCompletionChunkKind::RightBrace.code() == 11,
            CXCompletionChunkKind::LeftAngle.code() == 12,
            CXCompletionChunkKind::RightAngle.code() == 13,
            CXCompletionChunkKind::Comma.code() == 14,
            CXCompletionChunkKind::ResultType.code() == 15,
            CXCompletionChunkKind::Colon.code() == 16,
            CXCompletionChunkKind::SemiColon.code() == 17,
            CXCompletionChunkKind::Equal.code() == 18,
            CXCompletionChunkKind::HorizontalSpace.code() == 19,
            CXCompletionChunkKind::VerticalSpace.code() == 20,
    {
    }
}

impl CXCursorKind {
    /// Each variant stands for libclang's value of the same name: the values libclang's C
    /// interface gives them.
    pub proof fn lemma_libclang_values()
        ensures
            CXCursorKind::UnexposedDecl.code() == 1,
            CXCursorKind::StructDecl.code() == 2,
            CXCursorKind::UnionDecl.code() == 3,
            CXCursorKind::ClassDecl.code() == 4,
            CXCursorKind::EnumDecl.code() == 5,
            CXCursorKind::FieldDecl.code() == 6,
            CXCursorKind::EnumConstantDecl.code() == 7,
            CXCursorKind::FunctionDecl.code() == 8,
            CXCursorKind::VarDecl.code() == 9,
            CXCursorKind::ParmDecl.code() == 10,
            CXCursorKind::ObjCInterfaceDecl.code() == 11,
            CXCursorKind::ObjCCategoryDecl.code() == 12,
            CXCursorKind::ObjCProtocolDecl.code() == 13,
            CXCursorKind::ObjCPropertyDecl.code() == 14,
            CXCursorKind::ObjCIvarDecl.code() == 15,
            CXCursorKind::ObjCInstanceMethodDecl.code() == 16,
            CXCursorKind::ObjCClassMethodDecl.code() == 17,
            CXCursorKind::ObjCImplementationDecl.code() == 18,
            CXCursorKind::ObjCCategoryImplDecl.code() == 19,
            CXCursorKind::TypedefDecl.code() == 20,
            CXCursorKind::CXXMethod.code() == 21,
            CXCursorKind::Namespace.code() == 22,
            CXCursorKind::LinkageSpec.code() == 23,
            CXCursorKind::Constructor.code() == 24,
            CXCursorKind::Destructor.code() == 25,
            CXCursorKind::ConversionFunction.code() == 26,
            CXCursorKind::TemplateTypeParameter.code() == 27,
            CXCursorKind::NonTypeTemplateParameter.code() == 28,
            CXCursorKind::TemplateTemplateParameter.code() == 29,
            CXCursorKind::FunctionTemplate.code() == 30,
            CXCursorKind::ClassTemplate.code() == 31,
            CXCursorKind::ClassTemplatePartialSpecialization.code() == 32,
            CXCursorKind::NamespaceAlias.code() == 33,
            CXCursorKind::UsingDirective.code() == 34,
            CXCursorKind::UsingDeclaration.code() == 35,
            CXCursorKind::TypeAliasDecl.code() == 36,
            CXCursorKind::ObjCSynthesizeDecl.code() == 37,
            CXCursorKind::ObjCDynamicDecl.code() == 38,
            CXCursorKind::CXXAccessSpecifier.code() == 39,
            CXCursorKind::ObjCSuperClassRef.code() == 40,
            CXCursorKind::ObjCProtocolRef.code() == 41,
            CXCursorKind::ObjCClassRef.code() == 42,
            CXCursorKind::TypeRef.code() == 43,
            CXCursorKind::CXXBaseSpecifier.code() == 44,
            CXCursorKind::TemplateRef.code() == 45,
            CXCursorKind::NamespaceRef.code() == 46,
            CXCursorKind::MemberRef.code() == 47,
            CXCursorKind::LabelRef.code() == 48,
            CXCursorKind::OverloadedDeclRef.code() == 49,
            CXCursorKind::VariableRef.code() == 50,
            CXCursorKind::InvalidFile.code() == 70,
            CXCursorKind::NoDeclFound.code() == 71,
            CXCursorKind::NotImplemented.code() == 72,
            CXCursorKind::InvalidCode.code() == 73,
            CXCursorKind::UnexposedExpr.code() == 100,
            CXCursorKind::DeclRefExpr.code() == 101,
            CXCursorKind::MemberRefExpr.code() == 102,
            CXCursorKind::CallExpr.code() == 103,
            CXCursorKind::ObjCMessageExpr.code() == 104,
            CXCursorKind::BlockExpr.code() == 105,
            CXCursorKind::IntegerLiteral.code() == 106,
            CXCursorKind::FloatingLiteral.code() == 107,
            CXCursorKind::ImaginaryLiteral.code() == 108,
            CXCursorKind::StringLiteral.code() == 109,
            CXCursorKind::CharacterLiteral.code() == 110,
            CXCursorKind::ParenExpr.code() == 111,
            CXCursorKind::UnaryOperator.code() == 112,
            CXCursorKind::ArraySubscriptExpr.code() == 113,
            CXCursorKind::BinaryOperator.code() == 114,
            CXCursorKind::CompoundAssignOperator.code() == 115,
            CXCursorKind::ConditionalOperator.code() == 116,
            CXCursorKind::CStyleCastExpr.code() == 117,
            CXCursorKind::CompoundLiteralExpr.code() == 118,
            CXCursorKind::InitListExpr.code() == 119,
            CXCursorKind::AddrLabelExpr.code() == 120,
            CXCursorKind::StmtExpr.code() == 121,
            CXCursorKind::GenericSelectionExpr.code() == 122,
            CXCursorKind::GNUNullExpr.code() == 123,
            CXCursorKind::CXXStaticCastExpr.code() == 124,
            CXCursorKind::CXXDynamicCastExpr.code() == 125,
            CXCursorKind::CXXReinterpretCastExpr.code() == 126,
            CXCursorKind::CXXConstCastExpr.code() == 127,
            CXCursorKind::CXXFunctionalCastExpr.code() == 128,
            CXCursorKind::CXXTypeidExpr.code() == 129,
            CXCursorKind::CXXBoolLiteralExpr.code() == 130,
            CXCursorKind::CXXNullPtrLiteralExpr.code() == 131,
            CXCursorKind::CXXThisExpr.code() == 132,
            CXCursorKind::CXXThrowExpr.code() == 133,
            CXCursorKind::CXXNewExpr.code() == 134,
            CXCursorKind::CXXDeleteExpr.code() == 135,
            CXCursorKind::UnaryExpr.code() == 136,
            CXCursorKind::ObjCStringLiteral.code() == 137,
            CXCursorKind::ObjCEncodeExpr.code() == 138,
            CXCursorKind::ObjCSelectorExpr.code() == 139,
            CXCursorKind::ObjCProtocolExpr.code() == 140,
            CXCursorKind::ObjCBridgedCastExpr.code() == 141,
            CXCursorKind::PackExpansionExpr.code() == 142,
            CXCursorKind::SizeOfPackExpr.code() == 143,
            CXCursorKind::LambdaExpr.code() == 144,
            CXCursorKind::ObjCBoolLiteralExpr.code() == 145,
            CXCursorKind::ObjCSelfExpr.code() == 146,
            CXCursorKind::UnexposedStmt.code() == 200,
            CXCursorKind::LabelStmt.code() == 201,
            CXCursorKind::CompoundStmt.code() == 202,
            CXCursorKind::CaseStmt.code() == 203,
            CXCursorKind::DefaultStmt.code() == 204,
            CXCursorKind::IfStmt.code() == 205,
            CXCursorKind::SwitchStmt.code() == 206,
            CXCursorKind::WhileStmt.code() == 207,
            CXCursorKind::DoStmt.code() == 208,
            CXCursorKind::ForStmt.code() == 209,
            CXCursorKind::GotoStmt.code() == 210,
            CXCursorKind::IndirectGotoStmt.code() == 211,
            CXCursorKind::ContinueStmt.code() == 212,
            CXCursorKind::BreakStmt.code() == 213,
            CXCursorKind::ReturnStmt.code() == 214,
            CXCursorKind::AsmStmt.code() == 215,
            CXCursorKind::ObjCAtTryStmt.code() == 216,
            CXCursorKind::ObjCAtCatchStmt.code() == 217,
            CXCursorKind::ObjCAtFinallyStmt.code() == 218,
            CXCursorKind::ObjCAtThrowStmt.code() == 219,
            CXCursorKind::ObjCAtSynchronizedStmt.code() == 220,
            CXCursorKind::ObjCAutoreleasePoolStmt.code() == 221,
            CXCursorKind::ObjCForCollectionStmt.code() == 222,
            CXCursorKind::CXXCatchStmt.code() == 223,
            CXCursorKind::CXXTryStmt.code() == 224,
            CXCursorKind::CXXForRangeStmt.code() == 225,
            CXCursorKind::SEHTryStmt.code() == 226,
            CXCursorKind::SEHExceptStmt.code() == 227,
            CXCursorKind::SEHFinallyStmt.code() == 228,
            CXCursorKind::MSAsmStmt.code() == 229,
            CXCursorKind::NullStmt.code() == 230,
            CXCursorKind::DeclStmt.code() == 231,
            CXCursorKind::OMPParallelDirective.code() == 232,
            CXCursorKind::OMPSimdDirective.code() == 233,
            CXCursorKind::OMPForDirective.code() == 234,
            CXCursorKind::OMPSectionsDirective.code() == 235,
            CXCursorKind::OMPSectionDirective.code() == 236,
            CXCursorKind::OMPSingleDirective.code() == 237,
            CXCursorKind::OMPParallelForDirective.code() == 238,
            CXCursorKind::OMPParallelSectionsDirective.code() == 239,
            CXCursorKind::OMPTaskDirective.code() == 240,
            CXCursorKind::OMPMasterDirective.code() == 241,
            CXCursorKind::OMPCriticalDirective.code() == 242,
            CXCursorKind::OMPTaskyieldDirective.code() == 243,
            CXCursorKind::OMPBarrierDirective.code() == 244,
            CXCursorKind::OMPTaskwaitDirective.code() == 245,
            CXCursorKind::OMPFlushDirective.code() == 246,
            CXCursorKind::SEHLeaveStmt.code() == 247,
            CXCursorKind::OMPOrderedDirective.code() == 248,
            CXCursorKind::OMPAtomicDirective.code() == 249,
            CXCursorKind::OMPForSimdDirective.code() == 250,
            CXCursorKind::OMPParallelForSimdDirective.code() == 251,
            CXCursorKind::OMPTargetDirective.code() == 252,
            CXCursorKind::OMPTeamsDirective.code() == 253,
            CXCursorKind::OMPTaskgroupDirective.code() == 254,
            CXCursorKind::OMPCancellationPointDirective.code() == 255,
            CXCursorKind::OMPCancelDirective.code() == 256,
            CXCursorKind::TranslationUnit.code() == 300,
            CXCursorKind::UnexposedAttr.code() == 400,
            CXCursorKind::IBActionAttr.code() == 401,
            CXCursorKind::IBOutletAttr.code() == 402,
            CXCursorKind::IBOutletCollectionAttr.code() == 403,
            CXCursorKind::CXXFinalAttr.code() == 404,
            CXCursorKind::CXXOverrideAttr.code() == 405,
            CXCursorKind::AnnotateAttr.code() == 406,
            CXCursorKind::AsmLabelAttr.code() == 407,
            CXCursorKind::PackedAttr.code() == 408,
            CXCursorKind::PureAttr.code() == 409,
            CXCursorKind::ConstAttr.code() == 410,
            CXCursorKind::NoDuplicateAttr.code() == 411,
            CXCursorKind::CUDAConstantAttr.code() == 412,
            CXCursorKind::CUDADeviceAttr.code() == 413,
            CXCursorKind::CUDAGlobalAttr.code() == 414,
            CXCursorKind::CUDAHostAttr.code() == 415,
            CXCursorKind::CUDASharedAttr.code() == 416,
            CXCursorKind::PreprocessingDirective.code() == 500,
            CXCursorKind::MacroDefinition.code() == 501,
            CXCursorKind::MacroExpansion.code() == 502,
            CXCursorKind::InclusionDirective.code() == 503,
            CXCursorKind::ModuleImportDecl.code() == 600,
            CXCursorKind::OverloadCandidate.code() == 700,
    {
    }
}

impl CXDiagnosticSeverity {
    /// Each variant stands for libclang's value of the same name: the values libclang's C
    /// interface gives them.
    pub proof fn lemma_libclang_values()
        ensures
            CXDiagnosticSeverity::Ignored.code() == 0,
            CXDiagnosticSeverity::Note.code() == 1,
            CXDiagnosticSeverity::Warning.code() == 2,
            CXDiagnosticSeverity::Error.code() == 3,
            CXDiagnosticSeverity::Fatal.code() == 4,
    {
    }
}

impl CXErrorCode {
    /// Each variant stands for libclang's value of the same name: the values libclang's C
    /// interface gives them.
    pub proof fn lemma_libclang_values()
        ensures
            CXErrorCode::Success.code() == 0,
            CXErrorCode::Failure.code() == 1,
            CXErrorCode::Crashed.code() == 2,
            CXErrorCode::InvalidArguments.code() == 3,
            CXErrorCode::ASTReadError.code() == 4,
    {
    }
}

impl CXIdxAttrKind {
    /// Each variant stands for libclang's value of the same name: the values libclang's C
    /// interface gives them.
    pub proof fn lemma_libclang_values()
        ensures
            CXIdxAttrKind::Unexposed.code() == 0,
            CXIdxAttrKind::IBAction.code() == 1,
            CXIdxAttrKind::IBOutlet.code() == 2,
            CXIdxAttrKind::IBOutletCollection.code() == 3,
    {
    }
}

impl CXIdxEntityCXXTemplateKind {
    /// Each variant stands for libclang's value of the same name: the values libclang's C
    /// interface gives them.
    pub proof fn lemma_libclang_values()
        ensures
            CXIdxEntityCXXTemplateKind::NonTemplate.code() == 0,
            CXIdxEntityCXXTemplateKind::Template.code() == 1,
            CXIdxEntityCXXTemplateKind::TemplatePartialSpecialization.code() == 2,
            CXIdxEntityCXXTemplateKind::TemplateSpecialization.code() == 3,
    {
    }
}

impl CXIdxEntityKind {
    /// Each variant stands for libclang's value of the same name: the values libclang's C
    /// interface gives them.
    pub proof fn lemma_libclang_values()
        ensures
            CXIdxEntityKind::Unexposed.code() == 0,
            CXIdxEntityKind::Typedef.code() == 1,
            CXIdxEntityKind::Function.code() == 2,
            CXIdxEntityKind::Variable.code() == 3,
            CXIdxEntityKind::Field.code() == 4,
            CXIdxEntityKind::EnumConstant.code() == 5,
            CXIdxEntityKind::ObjCClass.code() == 6,
            CXIdxEntityKind::ObjCProtocol.code() == 7,
            CXIdxEntityKind::ObjCCategory.code() == 8,
            CXIdxEntityKind::ObjCInstanceMethod.code() == 9,
            CXIdxEntityKind::ObjCClassMethod.code() == 10,
            CXIdxEntityKind::ObjCProperty.code() == 11,
            CXIdxEntityKind::ObjCIvar.code() == 12,
            CXIdxEntityKind::Enum.code() == 13,
            CXIdxEntityKind::Struct.code() == 14,
            CXIdxEntityKind::Union.code() == 15,
            CXIdxEntityKind::CXXClass.code() == 16,
            CXIdxEntityKind::CXXNamespace.code() == 17,
            CXIdxEntityKind::CXXNamespaceAlias.code() == 18,
            CXIdxEntityKind::CXXStaticVariable.code() == 19,
            CXIdxEntityKind::CXXStaticMethod.code() == 20,
            CXIdxEntityKind::CXXInstanceMethod.code() == 21,
            CXIdxEntityKind::CXXConstructor.code() == 22,
            CXIdxEntityKind::CXXDestructor.code() == 23,
            CXIdxEntityKind::CXXConversionFunction.code() == 24,
            CXIdxEntityKind::CXXTypeAlias.code() == 25,
            CXIdxEntityKind::CXXInterface.code() == 26,
    {
    }
}

impl CXIdxEntityLanguage {
    /// Each variant stands for libclang's value of the same name: the values libclang's C
    /// interface gives them.
    pub proof fn lemma_libclang_values()
        ensures
            CXIdxEntityLanguage::NoLanguage.code() == 0,
            CXIdxEntityLanguage::C.code() == 1,
            CXIdxEntityLanguage::ObjC.code() == 2,
            CXIdxEntityLanguage::CXX.code() == 3,
    {
    }
}

impl CXIdxEntityRefKind {
    /// Each variant stands for libclang's value of the same name: the values libclang's C
    /// interface gives them.
    pub proof fn lemma_libclang_values()
        ensures
            CXIdxEntityRefKind::Direct.code() == 1,
            CXIdxEntityRefKind::Implicit.code() == 2,
    {
    }
}

impl CXIdxObjCContainerKind {
    /// Each variant stands for libclang's value of the same name: the values libclang's C
    /// interface gives them.
    pub proof fn lemma_libclang_values()
        ensures
            CXIdxObjCContainerKind::ForwardRef.code() == 0,
            CXIdxObjCContainerKind::Interface.code() == 1,
            CXIdxObjCContainerKind::Implementation.code() == 2,
    {
    }
}

impl CXLanguageKind {
    /// Each variant stands for libclang's value of the same name: the values libclang's C
    /// interface gives them.
    pub proof fn lemma_libclang_values()
        ensures
            CXLanguageKind::Invalid.code() == 0,
            CXLanguageKind::C.code() == 1,
            CXLanguageKind::ObjC.code() == 2,
            CXLanguageKind::CPlusPlus.code() == 3,
    {
    }
}

impl CXLinkageKind {
    /// Each variant stands for libclang's value of the same name: the values libclang's C
    /// interface gives them.
    pub proof fn lemma_libclang_values()
        ensures
            CXLinkageKind::Invalid.code() == 0,
            CXLinkageKind::NoLinkage.code() == 1,
            CXLinkageKind::Internal.code() == 2,
            CXLinkageKind::UniqueExternal.code() == 3,
            CXLinkageKind::External.code() == 4,
    {
    }
}

impl CXLoadDiag_Error {
    /// Each variant stands for libclang's value of the same name: the values libclang's C
    /// interface gives them.
    pub proof fn lemma_libclang_values()
        ensures
            CXLoadDiag_Error::NoError.code() == 0,
            CXLoadDiag_Error::Unknown.code() == 1,
            CXLoadDiag_Error::CannotLoad.code() == 2,
            CXLoadDiag_Error::InvalidFile.code() == 3,
    {
    }
}

impl CXRefQualifierKind {
    /// Each variant stands for libclang's value of the same name: the values libclang's C
    /// interface gives them.
    pub proof fn lemma_libclang_values()
        ensures
            CXRefQualifierKind::NoQualifier.code() == 0,
            CXRefQualifierKind::LValue.code() == 1,
            CXRefQualifierKind::RValue.code() == 2,
    {
    }
}

impl CXResult {
    /// Each variant stands for libclang's value of the same name: the values libclang's C
    /// interface gives them.
    pub proof fn lemma_libclang_values()
        ensures
            CXResult::Success.code() == 0,
            CXResult::Invalid.code() == 1,
            CXResult::VisitBreak.code() == 2,
    {
    }
}

impl CXSaveError {
    /// Each variant stands for libclang's value of the same name: the values libclang's C
    /// interface gives them.
    pub proof fn lemma_libclang_values()
        ensures
            CXSaveError::NoError.code() == 0,
            CXSaveError::Unknown.code() == 1,
            CXSaveError::TranslationErrors.code() == 2,
            CXSaveError::InvalidTU.code() == 3,
    {
    }
}

impl CXTUResourceUsageKind {
    /// Each variant stands for libclang's value of the same name: the values libclang's C
    /// interface gives them.
    pub proof fn lemma_libclang_values()
        ensures
            CXTUResourceUsageKind::AST.code() == 1,
            CXTUResourceUsageKind::Identifiers.code() == 2,
            CXTUResourceUsageKind::Selectors.code() == 3,
            CXTUResourceUsageKind::GlobalCompletionResults.code() == 4,
            CXTUResourceUsageKind::SourceManagerContentCache.code() == 5,
            CXTUResourceUsageKind::AST_SideTables.code() == 6,
            CXTUResourceUsageKind::SourceManager_Membuffer_Malloc.code() == 7,
            CXTUResourceUsageKind::SourceManager_Membuffer_MMap.code() == 8,
            CXTUResourceUsageKind::ExternalASTSource_Membuffer_Malloc.code() == 9,
            CXTUResourceUsageKind::ExternalASTSource_Membuffer_MMap.code() == 10,
            CXTUResourceUsageKind::Preprocessor.code() == 11,
            CXTUResourceUsageKind::PreprocessingRecord.code() == 12,
            CXTUResourceUsageKind::SourceManager_DataStructures.code() == 13,
            CXTUResourceUsageKind::Preprocessor_HeaderSearch.code() == 14,
    {
    }
}

impl CXTemplateArgumentKind {
    /// Each variant stands for libclang's value of the same name: the values libclang's C
    /// interface gives them.
    pub proof fn lemma_libclang_values()
        ensures
            CXTemplateArgumentKind::Null.code() == 0,
            CXTemplateArgumentKind::Type.code() == 1,
            CXTemplateArgumentKind::Declaration.code() == 2,
            CXTemplateArgumentKind::NullPtr.code() == 3,
            CXTemplateArgumentKind::Integral.code() == 4,
            CXTemplateArgumentKind::Template.code() == 5,
            CXTemplateArgumentKind::TemplateExpansion.code() == 6,
            CXTemplateArgumentKind::Expression.code() == 7,
            CXTemplateArgumentKind::Pack.code() == 8,
            CXTemplateArgumentKind::Invalid.code() == 9,
    {
    }
}

impl CXTokenKind {
    /// Each variant stands for libclang's value of the same name: the values libclang's C
    /// interface gives them.
    pub proof fn lemma_libclang_values()
        ensures
            CXTokenKind::Punctuation.code() == 0,
            CXTokenKind::Keyword.code() == 1,
            CXTokenKind::Identifier.code() == 2,
            CXTokenKind::Literal.code() == 3,
            CXTokenKind::Comment.code() == 4,
    {
    }
}

impl CXTypeKind {
    /// Each variant stands for libclang's value of the same name: the values libclang's C
    /// interface gives them.
    pub proof fn lemma_libclang_values()
        ensures
            CXTypeKind::Invalid.code() == 0,
            CXTypeKind::Unexposed.code() == 1,
            CXTypeKind::Void.code() == 2,
            CXTypeKind::Bool.code() == 3,
            CXTypeKind::Char_U.code() == 4,
            CXTypeKind::UChar.code() == 5,
            CXTypeKind::Char16.code() == 6,
            CXTypeKind::Char32.code() == 7,
            CXTypeKind::UShort.code() == 8,
            CXTypeKind::UInt.code() == 9,
            CXTypeKind::ULong.code() == 10,
            CXTypeKind::ULongLong.code() == 11,
            CXTypeKind::UInt128.code() == 12,
            CXTypeKind::Char_S.code() == 13,
            CXTypeKind::SChar.code() == 14,
            CXTypeKind::WChar.code() == 15,
            CXTypeKind::Short.code() == 16,
            CXTypeKind::Int.code() == 17,
            CXTypeKind::Long.code() == 18,
            CXTypeKind::LongLong.code() == 19,
            CXTypeKind::Int128.code() == 20,
            CXTypeKind::Float.code() == 21,
            CXTypeKind::Double.code() == 22,
            CXTypeKind::LongDouble.code() == 23,
            CXTypeKind::NullPtr.code() == 24,
            CXTypeKind::Overload.code() == 25,
            CXTypeKind::Dependent.code() == 26,
            CXTypeKind::ObjCId.code() == 27,
            CXTypeKind::ObjCClass.code() == 28,
            CXTypeKind::ObjCSel.code() == 29,
            CXTypeKind::Complex.code() == 100,
            CXTypeKind::Pointer.code() == 101,
            CXTypeKind::BlockPointer.code() == 102,
            CXTypeKind::LValueReference.code() == 103,
            CXTypeKind::RValueReference.code() == 104,
            CXTypeKind::Record.code() == 105,
            CXTypeKind::Enum.code() == 106,
            CXTypeKind::Typedef.code() == 107,
            CXTypeKind::ObjCInterface.code() == 108,
            CXTypeKind::ObjCObjectPointer.code() == 109,
            CXTypeKind::FunctionNoProto.code() == 110,
            CXTypeKind::FunctionProto.code() == 111,
            CXTypeKind::ConstantArray.code() == 112,
            CXTypeKind::Vector.code() == 113,
            CXTypeKind::IncompleteArray.code() == 114,
            CXTypeKind::VariableArray.code() == 115,
            CXTypeKind::DependentSizedArray.code() == 116,
            CXTypeKind::MemberPointer.code() == 117,
    {
    }
}

impl CXTypeLayoutError {
    /// Each variant stands for libclang's value of the same name: the values libclang's C
    /// interface gives them.
    pub proof fn lemma_libclang_values()
        ensures
            CXTypeLayoutError::Invalid.code() == -1,
            CXTypeLayoutError::Incomplete.code() == -2,
            CXTypeLayoutError::Dependent.code() == -3,
            CXTypeLayoutError::NotConstantSize.code() == -4,
            CXTypeLayoutError::InvalidFieldName.code() == -5,
    {
    }
}

impl CXVisitorResult {
    /// Each variant stands for libclang's value of the same name: the values libclang's C
    /// interface gives them.
    pub proof fn lemma_libclang_values()
        ensures
            CXVisitorResult::Break.code() == 0,
            CXVisitorResult::Continue.code() == 1,
    {
    }
}

impl CX_CXXAccessSpecifier {
    /// Each variant stands for libclang's value of the same name: the values libclang's C
    /// interface gives them.
    pub proof fn lemma_libclang_values()
        ensures
            CX_CXXAccessSpecifier::CXXInvalidAccessSpecifier.code() == 0,
            CX_CXXAccessSpecifier::CXXPublic.code() == 1,
            CX_CXXAccessSpecifier::CXXProtected.code() == 2,
            CX_CXXAccessSpecifier::CXXPrivate.code() == 3,
    {
    }
}

impl CX_StorageClass {
    /// Each variant stands for libclang's value of the same name: the values libclang's C
    /// interface gives them.
    pub proof fn lemma_libclang_values()
        ensures
            CX_StorageClass::SC_Invalid.code() == 0,
            CX_StorageClass::SC_None.code() == 1,
            CX_StorageClass::SC_Extern.code() == 2,
            CX_StorageClass::SC_Static.code() == 3,
            CX_StorageClass::SC_PrivateExtern.code() == 4,
            CX_StorageClass::SC_OpenCLWorkGroupLocal.code() == 5,
            CX_StorageClass::SC_Auto.code() == 6,
            CX_StorageClass::SC_Register.code() == 7,
    {
    }
}

} // verus!
