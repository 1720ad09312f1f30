//! Sets of options that libclang passes as bit flags.

use vstd::prelude::*;

verus! {

/// Indicates which attributes were applied to an Objective-C property.
#[derive(Copy, Clone, Debug, PartialEq, Eq, Hash, Structural)]
pub struct ObjCAttributes {
    /// Indicates use of the `readonly` attribute.
    pub readonly: bool,
    /// Indicates use of the `getter` attribute.
    pub getter: bool,
    /// Indicates use of the `assign` attribute.
    pub assign: bool,
    /// Indicates use of the `readwrite` attribute.
    pub readwrite: bool,
    /// Indicates use of the `retain` attribute.
    pub retain: bool,
    /// Indicates use of the `copy` attribute.
    pub copy: bool,
    /// Indicates use of the `nonatomic` attribute.
    pub nonatomic: bool,
    /// Indicates use of the `setter` attribute.
    pub setter: bool,
    /// Indicates use of the `atomic` attribute.
    pub atomic: bool,
    /// Indicates use of the `weak` attribute.
    pub weak: bool,
    /// Indicates use of the `strong` attribute.
    pub strong: bool,
    /// Indicates use of the `unsafe_retained` attribute.
    pub unsafe_retained: bool,
    /// Indicates use of the `class` attribute.
    pub class: bool,
}

impl ObjCAttributes {
    /// The attributes the bit flags `flags` select.
    pub open spec fn from_flags(flags: i32) -> Self {
        ObjCAttributes {
            readonly: flags & 1 != 0,
            getter: flags & 2 != 0,
            assign: flags & 4 != 0,
            readwrite: flags & 8 != 0,
            retain: flags & 16 != 0,
            copy: flags & 32 != 0,
            nonatomic: flags & 64 != 0,
            setter: flags & 128 != 0,
            atomic: flags & 256 != 0,
            weak: flags & 512 != 0,
            strong: flags & 1024 != 0,
            unsafe_retained: flags & 2048 != 0,
            class: flags & 4096 != 0,
        }
    }

    /// The bit flags that select these attributes.
    pub open spec fn flags(self) -> i32 {
        (if self.readonly { 1i32 } else { 0i32 })
            | (if self.getter { 2i32 } else { 0i32 })
            | (if self.assign { 4i32 } else { 0i32 })
            | (if self.readwrite { 8i32 } else { 0i32 })
            | (if self.retain { 16i32 } else { 0i32 })
            | (if self.copy { 32i32 } else { 0i32 })
            | (if self.nonatomic { 64i32 } else { 0i32 })
            | (if self.setter { 128i32 } else { 0i32 })
            | (if self.atomic { 256i32 } else { 0i32 })
            | (if self.weak { 512i32 } else { 0i32 })
            | (if self.strong { 1024i32 } else { 0i32 })
            | (if self.unsafe_retained { 2048i32 } else { 0i32 })
            | (if self.class { 4096i32 } else { 0i32 })
    }

    /// The bit flags that denote one of these attributes.
    pub open spec fn mask() -> i32 {
        8191
    }

    /// The bit flags of some attributes select those attributes again.
    pub proof fn lemma_flags_round_trip(self)
        ensures
            Self::from_flags(self.flags()) == self,
    {
        let b0 = self.readonly;
        let b1 = self.getter;
        let b2 = self.assign;
        let b3 = self.readwrite;
        let b4 = self.retain;
        let b5 = self.copy;
        let b6 = self.nonatomic;
        let b7 = self.setter;
        let b8 = self.atomic;
        let b9 = self.weak;
        let b10 = self.strong;
        let b11 = self.unsafe_retained;
        let b12 = self.class;
        let x = self.flags();
        assert(((x & 1) != 0) == b0
            && ((x & 2) != 0) == b1
            && ((x & 4) != 0) == b2
            && ((x & 8) != 0) == b3
            && ((x & 16) != 0) == b4
            && ((x & 32) != 0) == b5
            && ((x & 64) != 0) == b6
            && ((x & 128) != 0) == b7
            && ((x & 256) != 0) == b8
            && ((x & 512) != 0) == b9
            && ((x & 1024) != 0) == b10
            && ((x & 2048) != 0) == b11
            && ((x & 4096) != 0) == b12) by (bit_vector)
            requires
                x == (if b0 { 1i32 } else { 0i32 }) | (if b1 { 2i32 } else { 0i32 }) | (if b2 { 4i32 } else { 0i32 }) | (if b3 { 8i32 } else { 0i32 }) | (if b4 { 16i32 } else { 0i32 }) | (if b5 { 32i32 } else { 0i32 }) | (if b6 { 64i32 } else { 0i32 }) | (if b7 { 128i32 } else { 0i32 }) | (if b8 { 256i32 } else { 0i32 }) | (if b9 { 512i32 } else { 0i32 }) | (if b10 { 1024i32 } else { 0i32 }) | (if b11 { 2048i32 } else { 0i32 }) | (if b12 { 4096i32 } else { 0i32 }),
        ;
    }

    /// The attributes some bit flags select have as flags the bits of those flags that denote
    /// attributes.
    pub proof fn lemma_options_round_trip(flags: i32)
        ensures
            Self::from_flags(flags).flags() == flags & Self::mask(),
    {
        assert((if flags & 1 != 0 { 1i32 } else { 0i32 })
            | (if flags & 2 != 0 { 2i32 } else { 0i32 })
            | (if flags & 4 != 0 { 4i32 } else { 0i32 })
            | (if flags & 8 != 0 { 8i32 } else { 0i32 })
            | (if flags & 16 != 0 { 16i32 } else { 0i32 })
            | (if flags & 32 != 0 { 32i32 } else { 0i32 })
            | (if flags & 64 != 0 { 64i32 } else { 0i32 })
            | (if flags & 128 != 0 { 128i32 } else { 0i32 })
            | (if flags & 256 != 0 { 256i32 } else { 0i32 })
            | (if flags & 512 != 0 { 512i32 } else { 0i32 })
            | (if flags & 1024 != 0 { 1024i32 } else { 0i32 })
            | (if flags & 2048 != 0 { 2048i32 } else { 0i32 })
            | (if flags & 4096 != 0 { 4096i32 } else { 0i32 }) == flags & 8191) by (bit_vector);
    }
}

impl From<i32> for ObjCAttributes {
    fn from(flags: i32) -> (options: ObjCAttributes)
        ensures
            options == ObjCAttributes::from_flags(flags),
    {
        ObjCAttributes {
            readonly: flags & 1 != 0,
            getter: flags & 2 != 0,
            assign: flags & 4 != 0,
            readwrite: flags & 8 != 0,
            retain: flags & 16 != 0,
            copy: flags & 32 != 0,
            nonatomic: flags & 64 != 0,
            setter: flags & 128 != 0,
            atomic: flags & 256 != 0,
            weak: flags & 512 != 0,
            strong: flags & 1024 != 0,
            unsafe_retained: flags & 2048 != 0,
            class: flags & 4096 != 0,
        }
    }
}

impl vstd::std_specs::convert::FromSpecImpl<i32> for ObjCAttributes {
    open spec fn obeys_from_spec() -> bool {
        true
    }

    open spec fn from_spec(flags: i32) -> ObjCAttributes {
        ObjCAttributes::from_flags(flags)
    }
}

impl From<ObjCAttributes> for i32 {
    fn from(options: ObjCAttributes) -> (flags: i32)
        ensures
            flags == options.flags(),
    {
        (if options.readonly { 1i32 } else { 0i32 })
            | (if options.getter { 2i32 } else { 0i32 })
            | (if options.assign { 4i32 } else { 0i32 })
            | (if options.readwrite { 8i32 } else { 0i32 })
            | (if options.retain { 16i32 } else { 0i32 })
            | (if options.copy { 32i32 } else { 0i32 })
            | (if options.nonatomic { 64i32 } else { 0i32 })
            | (if options.setter { 128i32 } else { 0i32 })
            | (if options.atomic { 256i32 } else { 0i32 })
            | (if options.weak { 512i32 } else { 0i32 })
            | (if options.strong { 1024i32 } else { 0i32 })
            | (if options.unsafe_retained { 2048i32 } else { 0i32 })
            | (if options.class { 4096i32 } else { 0i32 })
    }
}

impl vstd::std_specs::convert::FromSpecImpl<ObjCAttributes> for i32 {
    open spec fn obeys_from_spec() -> bool {
        true
    }

    open spec fn from_spec(options: ObjCAttributes) -> i32 {
        options.flags()
    }
}

/// Indicates which qualifiers were applied to an Objective-C method return or parameter type.
#[derive(Copy, Clone, Debug, PartialEq, Eq, Hash, Structural)]
pub struct ObjCQualifiers {
    /// Indicates use of the `in` qualifier.
    pub in_: bool,
    /// Indicates use of the `inout` qualifier.
    pub inout: bool,
    /// Indicates use of the `out` qualifier.
    pub out: bool,
    /// Indicates use of the `bycopy` qualifier.
    pub bycopy: bool,
    /// Indicates use of the `byref` qualifier.
    pub byref: bool,
    /// Indicates use of the `oneway` qualifier.
    pub oneway: bool,
}

impl ObjCQualifiers {
    /// The qualifiers the bit flags `flags` select.
    pub open spec fn from_flags(flags: i32) -> Self {
        ObjCQualifiers {
            in_: flags & 1 != 0,
            inout: flags & 2 != 0,
            out: flags & 4 != 0,
            bycopy: flags & 8 != 0,
            byref: flags & 16 != 0,
            oneway: flags & 32 != 0,
        }
    }

    /// The bit flags that select these qualifiers.
    pub open spec fn flags(self) -> i32 {
        (if self.in_ { 1i32 } else { 0i32 })
            | (if self.inout { 2i32 } else { 0i32 })
            | (if self.out { 4i32 } else { 0i32 })
            | (if self.bycopy { 8i32 } else { 0i32 })
            | (if self.byref { 16i32 } else { 0i32 })
            | (if self.oneway { 32i32 } else { 0i32 })
    }

    /// The bit flags that denote one of these qualifiers.
    pub open spec fn mask() -> i32 {
        63
    }

    /// The bit flags of some qualifiers select those qualifiers again.
    pub proof fn lemma_flags_round_trip(self)
        ensures
            Self::from_flags(self.flags()) == self,
    {
        let b0 = self.in_;
        let b1 = self.inout;
        let b2 = self.out;
        let b3 = self.bycopy;
        let b4 = self.byref;
        let b5 = self.oneway;
        let x = self.flags();
        assert(((x & 1) != 0) == b0
            && ((x & 2) != 0) == b1
            && ((x & 4) != 0) == b2
            && ((x & 8) != 0) == b3
            && ((x & 16) != 0) == b4
            && ((x & 32) != 0) == b5) by (bit_vector)
            requires
                x == (if b0 { 1i32 } else { 0i32 }) | (if b1 { 2i32 } else { 0i32 }) | (if b2 { 4i32 } else { 0i32 }) | (if b3 { 8i32 } else { 0i32 }) | (if b4 { 16i32 } else { 0i32 }) | (if b5 { 32i32 } else { 0i32 }),
        ;
    }

    /// The qualifiers some bit flags select have as flags the bits of those flags that denote
    /// qualifiers.
    pub proof fn lemma_options_round_trip(flags: i32)
        ensures
            Self::from_flags(flags).flags() == flags & Self::mask(),
    {
        assert((if flags & 1 != 0 { 1i32 } else { 0i32 })
            | (if flags & 2 != 0 { 2i32 } else { 0i32 })
            | (if flags & 4 != 0 { 4i32 } else { 0i32 })
            | (if flags & 8 != 0 { 8i32 } else { 0i32 })
            | (if flags & 16 != 0 { 16i32 } else { 0i32 })
            | (if flags & 32 != 0 { 32i32 } else { 0i32 }) == flags & 63) by (bit_vector);
    }
}

impl From<i32> for ObjCQualifiers {
    fn from(flags: i32) -> (options: ObjCQualifiers)
        ensures
            options == ObjCQualifiers::from_flags(flags),
    {
        ObjCQualifiers {
            in_: flags & 1 != 0,
            inout: flags & 2 != 0,
            out: flags & 4 != 0,
            bycopy: flags & 8 != 0,
            byref: flags & 16 != 0,
            oneway: flags & 32 != 0,
        }
    }
}

impl vstd::std_specs::convert::FromSpecImpl<i32> for ObjCQualifiers {
    open spec fn obeys_from_spec() -> bool {
        true
    }

    open spec fn from_spec(flags: i32) -> ObjCQualifiers {
        ObjCQualifiers::from_flags(flags)
    }
}

impl From<ObjCQualifiers> for i32 {
    fn from(options: ObjCQualifiers) -> (flags: i32)
        ensures
            flags == options.flags(),
    {
        (if options.in_ { 1i32 } else { 0i32 })
            | (if options.inout { 2i32 } else { 0i32 })
            | (if options.out { 4i32 } else { 0i32 })
            | (if options.bycopy { 8i32 } else { 0i32 })
            | (if options.byref { 16i32 } else { 0i32 })
            | (if options.oneway { 32i32 } else { 0i32 })
    }
}

impl vstd::std_specs::convert::FromSpecImpl<ObjCQualifiers> for i32 {
    open spec fn obeys_from_spec() -> bool {
        true
    }

    open spec fn from_spec(options: ObjCQualifiers) -> i32 {
        options.flags()
    }
}

/// A set of options that determines which types of threads should use background priority.
#[derive(Copy, Clone, Debug, PartialEq, Eq, Hash, Structural, Default)]
pub struct ThreadOptions {
    /// Indicates whether threads creating for editing purposes should use background priority.
    pub editing: bool,
    /// Indicates whether threads creating for indexing purposes should use background priority.
    pub indexing: bool,
}

impl ThreadOptions {
    /// The options the bit flags `flags` select.
    pub open spec fn from_flags(flags: i32) -> Self {
        ThreadOptions {
            editing: flags & 2 != 0,
            indexing: flags & 1 != 0,
        }
    }

    /// The bit flags that select these options.
    pub open spec fn flags(self) -> i32 {
        (if self.editing { 2i32 } else { 0i32 })
            | (if self.indexing { 1i32 } else { 0i32 })
    }

    /// The bit flags that denote one of these options.
    pub open spec fn mask() -> i32 {
        3
    }

    /// The bit flags of some options select those options again.
    pub proof fn lemma_flags_round_trip(self)
        ensures
            Self::from_flags(self.flags()) == self,
    {
        let b0 = self.editing;
        let b1 = self.indexing;
        let x = self.flags();
        assert(((x & 2) != 0) == b0
            && ((x & 1) != 0) == b1) by (bit_vector)
            requires
                x == (if b0 { 2i32 } else { 0i32 }) | (if b1 { 1i32 } else { 0i32 }),
        ;
    }

    /// The options some bit flags select have as flags the bits of those flags that denote
    /// options.
    pub proof fn lemma_options_round_trip(flags: i32)
        ensures
            Self::from_flags(flags).flags() == flags & Self::mask(),
    {
        assert((if flags & 2 != 0 { 2i32 } else { 0i32 })
            | (if flags & 1 != 0 { 1i32 } else { 0i32 }) == flags & 3) by (bit_vector);
    }
}

impl From<i32> for ThreadOptions {
    fn from(flags: i32) -> (options: ThreadOptions)
        ensures
            options == ThreadOptions::from_flags(flags),
    {
        ThreadOptions {
            editing: flags & 2 != 0,
            indexing: flags & 1 != 0,
        }
    }
}

impl vstd::std_specs::convert::FromSpecImpl<i32> for ThreadOptions {
    open spec fn obeys_from_spec() -> bool {
        true
    }

    open spec fn from_spec(flags: i32) -> ThreadOptions {
        ThreadOptions::from_flags(flags)
    }
}

impl From<ThreadOptions> for i32 {
    fn from(options: ThreadOptions) -> (flags: i32)
        ensures
            flags == options.flags(),
    {
        (if options.editing { 2i32 } else { 0i32 })
            | (if options.indexing { 1i32 } else { 0i32 })
    }
}

impl vstd::std_specs::convert::FromSpecImpl<ThreadOptions> for i32 {
    open spec fn obeys_from_spec() -> bool {
        true
    }

    open spec fn from_spec(options: ThreadOptions) -> i32 {
        options.flags()
    }
}


impl ObjCAttributes {
    /// Each option is selected by libclang's bit for it.
    pub proof fn lemma_libclang_bits(flags: i32)
        ensures
            Self::from_flags(flags).readonly == (flags & 1 != 0),
            Self::from_flags(flags).getter == (flags & 2 != 0),
            Self::from_flags(flags).assign == (flags & 4 != 0),
            Self::from_flags(flags).readwrite == (flags & 8 != 0),
            Self::from_flags(flags).retain == (flags & 16 != 0),
            Self::from_flags(flags).copy == (flags & 32 != 0),
            Self::from_flags(flags).nonatomic == (flags & 64 != 0),
            Self::from_flags(flags).setter == (flags & 128 != 0),
            Self::from_flags(flags).atomic == (flags & 256 != 0),
            Self::from_flags(flags).weak == (flags & 512 != 0),
            Self::from_flags(flags).strong == (flags & 1024 != 0),
            Self::from_flags(flags).unsafe_retained == (flags & 2048 != 0),
            Self::from_flags(flags).class == (flags & 4096 != 0),
    {
    }
}

impl ObjCQualifiers {
    /// Each option is selected by libclang's bit for it.
    pub proof fn lemma_libclang_bits(flags: i32)
        ensures
            Self::from_flags(flags).in_ == (flags & 1 != 0),
            Self::from_flags(flags).inout == (flags & 2 != 0),
            Self::from_flags(flags).out == (flags & 4 != 0),
            Self::from_flags(flags).bycopy == (flags & 8 != 0),
            Self::from_flags(flags).byref == (flags & 16 != 0),
            Self::from_flags(flags).oneway == (flags & 32 != 0),
    {
    }
}

impl ThreadOptions {
    /// Each option is selected by libclang's bit for it.
    pub proof fn lemma_libclang_bits(flags: i32)
        ensures
            Self::from_flags(flags).editing == (flags & 2 != 0),
            Self::from_flags(flags).indexing == (flags & 1 != 0),
    {
    }
}

} // verus!
