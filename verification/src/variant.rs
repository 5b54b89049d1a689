//! Parameters that define a variant of an algorithm.

use crate::input_factors::join;
use crate::key::key_of;
use vstd::prelude::*;

verus! {

/// Parameters defining a variant of an algorithm.
///
/// Each variant is determined by the combination of its parameter values.
/// An implementation gives the names of the parameters, which are the same
/// for every variant of the type, and the values of one variant as text:
/// one for each name, in the order of the names.
///
/// Short names and values serve where a key has to be brief. Unless they
/// are implemented they are the long ones; where they are, there are as
/// many of them as of the long ones.
///
/// Keys have to tell the variants of one experiment apart, the short keys
/// as well as the long ones. Nothing here checks that they do.
pub trait Variant {
    /// Names (long) of the parameters.
    fn param_names() -> (names: Vec<&'static str>)
    ;

    /// Values (long) of the parameters of this variant, as text: as many as
    /// `param_names` gives names.
    fn param_values(&self) -> (values: Vec<String>)
        ensures
            forall|names: Vec<&'static str>| #[trigger]
                call_ensures(Self::param_names, (), names) ==> values.len() == names.len(),
    ;

    /// Short names of the parameters: as many as `param_names` gives names.
    /// By default they are the long names.
    fn param_names_short() -> (names: Vec<&'static str>)
        ensures
            exists|long: Vec<&'static str>| #[trigger]
                call_ensures(Self::param_names, (), long) && names.len() == long.len(),
        default_ensures
            call_ensures(Self::param_names, (), names),
    {
        Self::param_names()
    }

    /// Short values of the parameters of this variant: as many as
    /// `param_names_short` gives names. By default they are the long
    /// values.
    fn param_values_short(&self) -> (values: Vec<String>)
        ensures
            forall|names: Vec<&'static str>| #[trigger]
                call_ensures(Self::param_names_short, (), names) ==> values.len() == names.len(),
        default_ensures
            call_ensures(Self::param_values, (self,), values),
    {
        self.param_values()
    }

    /// Key of the variant: what `param_names` and `param_values` return,
    /// joined into `name1:value1_..._nameN:valueN`.
    fn key_long(&self) -> (key: String)
        ensures
            exists|names: Vec<&'static str>, values: Vec<String>|
                #![trigger
                    call_ensures(Self::param_names, (), names),
                    call_ensures(Self::param_values, (self,), values),
                ]
                call_ensures(Self::param_names, (), names) && call_ensures(
                    Self::param_values,
                    (self,),
                    values,
                ) && key@ == key_of(names.deep_view(), values.deep_view()),
    {
        let names = Self::param_names();
        let values = self.param_values();
        join(names.as_slice(), values.as_slice())
    }

    /// Short key of the variant: what `param_names_short` and
    /// `param_values_short` return, joined in the same way.
    fn key_short(&self) -> (key: String)
        ensures
            exists|names: Vec<&'static str>, values: Vec<String>|
                #![trigger
                    call_ensures(Self::param_names_short, (), names),
                    call_ensures(Self::param_values_short, (self,), values),
                ]
                call_ensures(Self::param_names_short, (), names) && call_ensures(
                    Self::param_values_short,
                    (self,),
                    values,
                ) && key@ == key_of(names.deep_view(), values.deep_view()),
    {
        let names = Self::param_names_short();
        let values = self.param_values_short();
        join(names.as_slice(), values.as_slice())
    }
}

} // verus!
