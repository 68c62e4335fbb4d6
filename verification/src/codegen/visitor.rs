//! Writing one piece of program text for each field of a specification.

use vstd::prelude::*;

verus! {

/// A field that has a piece of program text for the part `T` of the
/// program.
pub trait VisitWrite<T> {
    /// `acc` and then the piece for this field.
    spec fn written(&self, acc: Seq<char>) -> Seq<char>;

    /// Writes the piece for this field to the end of `output`.
    fn visit_write(&self, output: &mut String)
        ensures
            final(output)@ == self.written(old(output)@),
    ;
}

/// `acc` and then the pieces for the fields `items`, in their order.
pub open spec fn written_all<T, V: VisitWrite<T>>(items: Seq<V>, acc: Seq<char>) -> Seq<char>
    decreases items.len(),
{
    if items.len() == 0 {
        acc
    } else {
        items.last().written(written_all::<T, V>(items.drop_last(), acc))
    }
}

/// Writes the pieces for the fields `items`, in their order.
pub fn iter<T, V: VisitWrite<T>>(items: &Vec<V>, output: &mut String)
    ensures
        final(output)@ == written_all::<T, V>(items@, old(output)@),
{
    let mut i: usize = 0;
    proof {
        assert(items@.take(0) =~= Seq::empty());
    }
    while i < items.len()
        invariant
            i <= items.len(),
            output@ == written_all::<T, V>(items@.take(i as int), old(output)@),
        decreases items.len() - i,
    {
        proof {
            assert(items@.take(i + 1).drop_last() =~= items@.take(i as int));
        }
        items[i].visit_write(output);
        i = i + 1;
    }
    proof {
        assert(items@.take(items.len() as int) =~= items@);
    }
}

/// The fields of the type that holds what one source gives.
pub enum RawConfigDecl {
    /// The one value of the mark.
    Mark,
}

/// The errors of the command line, one for each parameter.
pub enum ArgParseErrorDecl {
    /// The one value of the mark.
    Mark,
}

/// The errors of the environment, one for each field.
pub enum EnvParseErrorDecl {
    /// The one value of the mark.
    Mark,
}

/// The fields of the type that holds the configuration.
pub enum ConfigFinal {
    /// The one value of the mark.
    Mark,
}

/// The statements that check that what has to be given was given.
pub enum Validate {
    /// The one value of the mark.
    Mark,
}

/// The fields of the expression that builds the configuration.
pub enum ConstructConfig {
    /// The one value of the mark.
    Mark,
}

/// The statements that merge one layer into another.
pub enum MergeIn {
    /// The one value of the mark.
    Mark,
}

/// The branches that take in the long options.
pub enum MergeArgs {
    /// The one value of the mark.
    Mark,
}

/// The branches that take in the short options.
pub enum MergeShort {
    /// The one value of the mark.
    Mark,
}

} // verus!
