//! Treatments with a fixed number of factors.

use crate::input_factors::join;
use crate::key::key_of;
use vstd::prelude::*;

verus! {

/// A treatment described by `N` factors.
///
/// An implementation gives the factor names, which are the same for every
/// value of the type, and the values of one treatment as text, in the order
/// of the names.
pub trait Treatment<const N: usize> {
    /// Names of the factors of the treatment.
    fn factor_names() -> (names: [&'static str; N])
    ;

    /// Values of the factors of this treatment, as text.
    fn factor_values(&self) -> (values: [String; N])
    ;

    /// The treatment as text: what `factor_names` and `factor_values`
    /// return, joined into `name1:value1_..._nameN:valueN`.
    fn to_string(&self) -> (text: String)
        ensures
            exists|names: [&'static str; N], values: [String; N]|
                #![trigger
                    call_ensures(Self::factor_names, (), names),
                    call_ensures(Self::factor_values, (self,), values),
                ]
                call_ensures(Self::factor_names, (), names) && call_ensures(
                    Self::factor_values,
                    (self,),
                    values,
                ) && text@ == key_of(names.deep_view(), values.deep_view()),
    {
        let names = Self::factor_names();
        let values = self.factor_values();
        let name_slice = names.as_slice();
        let value_slice = values.as_slice();
        assert(name_slice.deep_view() =~= names.deep_view());
        assert(value_slice.deep_view() =~= values.deep_view());
        join(name_slice, value_slice)
    }
}

} // verus!
