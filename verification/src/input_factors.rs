//! Factors that define an input of an experiment.

use crate::key::{key_of, pair_text, pairs};
use crate::text::{joined, lemma_joined_push};
use vstd::prelude::*;
use vstd::string::StringExecFns;

verus! {

/// Factors defining an input of an experiment.
///
/// Each input is determined by the combination of its factor levels. An
/// implementation gives the names of the factors, which are the same for
/// every input of the type, and the levels of one input as text: one for
/// each name, in the order of the names.
///
/// Short names and levels serve where a key has to be brief. Unless they
/// are implemented they are the long ones; where they are, there are as
/// many of them as of the long ones.
///
/// Keys have to tell the inputs of one experiment apart, the short keys as
/// well as the long ones. Nothing here checks that they do.
pub trait InputFactors {
    /// Names (long) of the factors.
    fn factor_names() -> (names: Vec<&'static str>)
    ;

    /// Levels (long) of the factors of this input, as text: as many as
    /// `factor_names` gives names.
    fn factor_levels(&self) -> (levels: Vec<String>)
        ensures
            forall|names: Vec<&'static str>| #[trigger]
                call_ensures(Self::factor_names, (), names) ==> levels.len() == names.len(),
    ;

    /// Short names of the factors: as many as `factor_names` gives names.
    /// By default they are the long names.
    fn factor_names_short() -> (names: Vec<&'static str>)
        ensures
            exists|long: Vec<&'static str>| #[trigger]
                call_ensures(Self::factor_names, (), long) && names.len() == long.len(),
        default_ensures
            call_ensures(Self::factor_names, (), names),
    {
        Self::factor_names()
    }

    /// Short levels of the factors of this input: as many as
    /// `factor_names_short` gives names. By default they are the long
    /// levels.
    fn factor_levels_short(&self) -> (levels: Vec<String>)
        ensures
            forall|names: Vec<&'static str>| #[trigger]
                call_ensures(Self::factor_names_short, (), names) ==> levels.len() == names.len(),
        default_ensures
            call_ensures(Self::factor_levels, (self,), levels),
    {
        self.factor_levels()
    }

    /// Key of the input: what `factor_names` and `factor_levels` return,
    /// joined into `name1:value1_..._nameN:valueN`.
    fn key_long(&self) -> (key: String)
        ensures
            exists|names: Vec<&'static str>, levels: Vec<String>|
                #![trigger
                    call_ensures(Self::factor_names, (), names),
                    call_ensures(Self::factor_levels, (self,), levels),
                ]
                call_ensures(Self::factor_names, (), names) && call_ensures(
                    Self::factor_levels,
                    (self,),
                    levels,
                ) && key@ == key_of(names.deep_view(), levels.deep_view()),
    {
        let names = Self::factor_names();
        let levels = self.factor_levels();
        join(names.as_slice(), levels.as_slice())
    }

    /// Short key of the input: what `factor_names_short` and
    /// `factor_levels_short` return, joined in the same way.
    fn key_short(&self) -> (key: String)
        ensures
            exists|names: Vec<&'static str>, levels: Vec<String>|
                #![trigger
                    call_ensures(Self::factor_names_short, (), names),
                    call_ensures(Self::factor_levels_short, (self,), levels),
                ]
                call_ensures(Self::factor_names_short, (), names) && call_ensures(
                    Self::factor_levels_short,
                    (self,),
                    levels,
                ) && key@ == key_of(names.deep_view(), levels.deep_view()),
    {
        let names = Self::factor_names_short();
        let levels = self.factor_levels_short();
        join(names.as_slice(), levels.as_slice())
    }
}

/// Joins names and values into the key `name1:value1_..._nameN:valueN`.
///
/// Without names the key is empty.
pub fn join(names: &[&'static str], values: &[String]) -> (key: String)
    requires
        names.len() == values.len(),
    ensures
        key@ == key_of(names.deep_view(), values.deep_view()),
{
    let ghost parts = pairs(names.deep_view(), values.deep_view());
    let mut key = String::new();
    let mut k: usize = 0;
    while k < names.len()
        invariant
            k <= names.len(),
            names.len() == values.len(),
            parts == pairs(names.deep_view(), values.deep_view()),
            key@ == joined(parts.take(k as int), seq!['_']),
        decreases names.len() - k,
    {
        proof {
            reveal_strlit("_");
            reveal_strlit(":");
            lemma_joined_push(parts.take(k as int), seq!['_'], parts[k as int]);
            assert(parts.take(k as int).push(parts[k as int]) =~= parts.take(k + 1));
            assert(parts[k as int] == pair_text(names[k as int]@, values[k as int]@));
        }
        if k > 0 {
            key.append("_");
        }
        let ghost start = key@;
        key.append(names[k]);
        key.append(":");
        key.append(values[k].as_str());
        assert(key@ =~= start + pair_text(names[k as int]@, values[k as int]@));
        assert("_"@ =~= seq!['_']);
        k += 1;
    }
    assert(parts.take(k as int) =~= parts);
    key
}

} // verus!
