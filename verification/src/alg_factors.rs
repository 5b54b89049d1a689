//! Factors that define a variant of an algorithm.

use crate::input_factors::join;
use crate::key::key_of;
use vstd::prelude::*;

verus! {

/// Factors defining a variant of an algorithm.
///
/// Each variant is determined by the combination of its factor levels. An
/// implementation gives the names of the factors, which are the same for
/// every variant of the type, and the levels of one variant as text: one
/// for each name, in the order of the names.
///
/// Short names and levels serve where a key has to be brief. Unless they
/// are implemented they are the long ones; where they are, there are as
/// many of them as of the long ones.
///
/// Keys have to tell the variants of one experiment apart, the short keys
/// as well as the long ones. Nothing here checks that they do.
pub trait AlgFactors {
    /// Names (long) of the factors.
    fn factor_names() -> (names: Vec<&'static str>)
    ;

    /// Levels (long) of the factors of this variant, as text: as many as
    /// `factor_names` gives names.
    fn factor_levels(&self) -> (levels: Vec<String>)
        ensures
            forall|names: Vec<&'static str>| #[trigger]
                call_ensures(Self::factor_names, (), names) ==> levels.len() == names.len(),
    ;

    /// Short names of the factors: as many as `factor_names` gives names.
    /// By default they are the long names.
    fn factor_names_short() -> (names: Vec<&'static str>)
        ensures
            exists|long: Vec<&'static str>| #[trigger]
                call_ensures(Self::factor_names, (), long) && names.len() == long.len(),
        default_ensures
            call_ensures(Self::factor_names, (), names),
    {
        Self::factor_names()
    }

    /// Short levels of the factors of this variant: as many as
    /// `factor_names_short` gives names. By default they are the long
    /// levels.
    fn factor_levels_short(&self) -> (levels: Vec<String>)
        ensures
            forall|names: Vec<&'static str>| #[trigger]
                call_ensures(Self::factor_names_short, (), names) ==> levels.len() == names.len(),
        default_ensures
            call_ensures(Self::factor_levels, (self,), levels),
    {
        self.factor_levels()
    }

    /// Key of the variant: what `factor_names` and `factor_levels` return,
    /// joined into `name1:value1_..._nameN:valueN`.
    fn key_long(&self) -> (key: String)
        ensures
            exists|names: Vec<&'static str>, levels: Vec<String>|
                #![trigger
                    call_ensures(Self::factor_names, (), names),
                    call_ensures(Self::factor_levels, (self,), levels),
                ]
                call_ensures(Self::factor_names, (), names) && call_ensures(
                    Self::factor_levels,
                    (self,),
                    levels,
                ) && key@ == key_of(names.deep_view(), levels.deep_view()),
    {
        let names = Self::factor_names();
        let levels = self.factor_levels();
        join(names.as_slice(), levels.as_slice())
    }

    /// Short key of the variant: what `factor_names_short` and
    /// `factor_levels_short` return, joined in the same way.
    fn key_short(&self) -> (key: String)
        ensures
            exists|names: Vec<&'static str>, levels: Vec<String>|
                #![trigger
                    call_ensures(Self::factor_names_short, (), names),
                    call_ensures(Self::factor_levels_short, (self,), levels),
                ]
                call_ensures(Self::factor_names_short, (), names) && call_ensures(
                    Self::factor_levels_short,
                    (self,),
                    levels,
                ) && key@ == key_of(names.deep_view(), levels.deep_view()),
    {
        let names = Self::factor_names_short();
        let levels = self.factor_levels_short();
        join(names.as_slice(), levels.as_slice())
    }
}

} // verus!
