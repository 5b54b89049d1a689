//! Factors that define a data set.

use crate::key::key_of;
use vstd::prelude::*;

verus! {

/// Factors defining a data set.
///
/// Each data set is determined by the combination of its factor values. An
/// implementation gives the names of the factors, which are the same for
/// every data set of the type, and the values of one data set as text: one
/// for each name, in the order of the names.
///
/// Short names and values serve where a key has to be brief. Unless they
/// are implemented they are the long ones; where they are, there are as
/// many of them as of the long ones.
///
/// Keys have to tell the data sets of one experiment apart, the short keys
/// as well as the long ones. Nothing here checks that they do.
pub trait Data {
    /// Names (long) of the factors.
    fn factor_names() -> (names: Vec<&'static str>)
    ;

    /// Values (long) of the factors of this data set, as text: as many as
    /// `factor_names` gives names.
    fn factor_values(&self) -> (values: Vec<String>)
        ensures
            forall|names: Vec<&'static str>| #[trigger]
                call_ensures(Self::factor_names, (), names) ==> values.len() == names.len(),
    ;

    /// Short names of the factors: as many as `factor_names` gives names.
    /// By default they are the long names.
    fn factor_names_short() -> (names: Vec<&'static str>)
        ensures
            exists|long: Vec<&'static str>| #[trigger]
                call_ensures(Self::factor_names, (), long) && names.len() == long.len(),
        default_ensures
            call_ensures(Self::factor_names, (), names),
    {
        Self::factor_names()
    }

    /// Short values of the factors of this data set: as many as
    /// `factor_names_short` gives names. By default they are the long
    /// values.
    fn factor_values_short(&self) -> (values: Vec<String>)
        ensures
            forall|names: Vec<&'static str>| #[trigger]
                call_ensures(Self::factor_names_short, (), names) ==> values.len() == names.len(),
        default_ensures
            call_ensures(Self::factor_values, (self,), values),
    {
        self.factor_values()
    }

    /// Key of the data set: what `factor_names` and `factor_values` return,
    /// joined into `name1:value1_..._nameN:valueN`.
    fn key_long(&self) -> (key: String)
        ensures
            exists|names: Vec<&'static str>, values: Vec<String>|
                #![trigger
                    call_ensures(Self::factor_names, (), names),
                    call_ensures(Self::factor_values, (self,), values),
                ]
                call_ensures(Self::factor_names, (), names) && call_ensures(
                    Self::factor_values,
                    (self,),
                    values,
                ) && key@ == key_of(names.deep_view(), values.deep_view()),
    {
        let names = Self::factor_names();
        let values = self.factor_values();
        join(names.as_slice(), values.as_slice())
    }

    /// Short key of the data set: what `factor_names_short` and
    /// `factor_values_short` return, joined in the same way.
    fn key_short(&self) -> (key: String)
        ensures
            exists|names: Vec<&'static str>, values: Vec<String>|
                #![trigger
                    call_ensures(Self::factor_names_short, (), names),
                    call_ensures(Self::factor_values_short, (self,), values),
                ]
                call_ensures(Self::factor_names_short, (), names) && call_ensures(
                    Self::factor_values_short,
                    (self,),
                    values,
                ) && key@ == key_of(names.deep_view(), values.deep_view()),
    {
        let names = Self::factor_names_short();
        let values = self.factor_values_short();
        join(names.as_slice(), values.as_slice())
    }
}

/// Joins names and values into the key `name1:value1_..._nameN:valueN`.
///
/// Without names the key is empty.
pub fn join(names: &[&'static str], values: &[String]) -> (key: String)
    requires
        names.len() == values.len(),
    ensures
        key@ == key_of(names.deep_view(), values.deep_view()),
{
    crate::input_factors::join(names, values)
}

} // verus!
