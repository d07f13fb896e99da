//! Checks on nodes that have parsed: whether an extension says anything, and
//! whether it fits the definition that it extends.

use crate::error::ValidationError;
use crate::nodes::FieldDefinitionNode;
use vstd::prelude::*;
use vstd::std_specs::cmp::PartialEqSpec;

verus! {

/// What a check returns.
pub type ValidationResult = Result<(), ValidationError>;

/// A node that has field definitions.
pub trait NodeWithFields {
    /// The field definitions of the node.
    spec fn spec_fields(&self) -> Seq<FieldDefinitionNode>;

    /// The field definitions of the node.
    fn get_fields(&self) -> (r: &[FieldDefinitionNode])
        ensures
            r@ == self.spec_fields(),
    ;
}

/// A node that can be checked by itself.
pub trait ValidNode {
    /// Whether the node is valid.
    spec fn is_valid(&self) -> bool;

    /// Checks the node: it passes exactly when the node is valid.
    fn validate(&self) -> (r: ValidationResult)
        ensures
            r is Ok == self.is_valid(),
    ;
}

/// A node that extends a definition of type `T`, and can be checked against
/// it.
pub trait ValidExtensionNode<T> {
    /// Whether the node is a valid extension of `original`.
    spec fn extends(&self, original: &T) -> bool;

    /// Checks the node against the definition that it extends. Without a
    /// definition the check fails.
    fn validate_extension(&self, original: Option<&T>) -> (r: ValidationResult)
        ensures
            r is Ok == (original is Some && self.extends(original->0)),
    ;
}

/// Whether some element of `needles` is equal to some element of `haystack`.
pub fn contains_any_element<T: PartialEq>(haystack: &[T], needles: &[T]) -> (r: bool)
    ensures
        T::obeys_eq_spec() ==> r == exists|i: int, j: int|
            0 <= i < needles@.len() && 0 <= j < haystack@.len() && #[trigger] needles@[i].eq_spec(
                &#[trigger] haystack@[j],
            ),
{
    let mut i: usize = 0;
    while i < needles.len()
        invariant
            i <= needles@.len(),
            T::obeys_eq_spec() ==> forall|a: int, b: int|
                0 <= a < i && 0 <= b < haystack@.len() ==> !#[trigger] needles@[a].eq_spec(
                    &#[trigger] haystack@[b],
                ),
        decreases needles@.len() - i,
    {
        let mut j: usize = 0;
        while j < haystack.len()
            invariant
                i < needles@.len(),
                j <= haystack@.len(),
                T::obeys_eq_spec() ==> forall|b: int|
                    0 <= b < j ==> !needles@[i as int].eq_spec(&#[trigger] haystack@[b]),
            decreases haystack@.len() - j,
        {
            if needles[i] == haystack[j] {
                return true;
            }
            j = j + 1;
        }
        i = i + 1;
    }
    false
}

/// The names of a list of field definitions.
pub open spec fn names_of(fields: Seq<FieldDefinitionNode>) -> Seq<Seq<char>> {
    Seq::new(fields.len(), |i: int| fields[i].name.value@)
}

/// The names of `extension` that occur in `original`, in the order of
/// `extension`.
pub open spec fn conflicting_names(extension: Seq<Seq<char>>, original: Seq<Seq<char>>) -> Seq<
    Seq<char>,
>
    decreases extension.len(),
{
    if extension.len() == 0 {
        Seq::empty()
    } else {
        let before = conflicting_names(extension.drop_last(), original);
        if original.contains(extension.last()) {
            before.push(extension.last())
        } else {
            before
        }
    }
}

/// The names, with `separator` between them.
pub open spec fn join(names: Seq<Seq<char>>, separator: Seq<char>) -> Seq<char>
    decreases names.len(),
{
    if names.len() == 0 {
        Seq::empty()
    } else if names.len() == 1 {
        names[0]
    } else {
        join(names.drop_last(), separator) + separator + names.last()
    }
}

/// The message for an extension that defines the given names again.
pub open spec fn redefinition_message(names: Seq<Seq<char>>) -> Seq<char> {
    "Invalid Extension: Cannot redefine field(s) "@ + join(names, ", "@)
}

/// Whether a field of the given name is among `fields`.
fn has_field_named(fields: &[FieldDefinitionNode], name: &str) -> (r: bool)
    ensures
        r == names_of(fields@).contains(name@),
{
    let mut j: usize = 0;
    while j < fields.len()
        invariant
            j <= fields@.len(),
            forall|b: int| 0 <= b < j ==> names_of(fields@)[b] != name@,
        decreases fields@.len() - j,
    {
        if crate::text::str_eq(fields[j].name.value.as_str(), name) {
            assert(names_of(fields@)[j as int] == name@);
            return true;
        }
        j = j + 1;
    }
    false
}

/// Checks that an extension defines no field that the original node has.
/// Fields are compared by their names. The error names every field that is
/// defined again, in the order of the extension.
pub fn validate_extension_fields_against_original<E: NodeWithFields, O: NodeWithFields>(
    extension: &E,
    original: &O,
) -> (r: ValidationResult)
    ensures
        ({
            let names = conflicting_names(
                names_of(extension.spec_fields()),
                names_of(original.spec_fields()),
            );
            match r {
                Ok(_) => names.len() == 0,
                Err(e) => names.len() > 0 && e.message@ == redefinition_message(names),
            }
        }),
{
    let fields = extension.get_fields();
    let original_fields = original.get_fields();
    let ghost all = names_of(fields@);
    let ghost others = names_of(original_fields@);
    let ghost mut found: Seq<Seq<char>> = Seq::empty();
    let mut message = String::from_str("Invalid Extension: Cannot redefine field(s) ");
    let mut count: usize = 0;
    let mut i: usize = 0;
    assert(all.take(0) =~= Seq::empty());
    assert(message@ =~= redefinition_message(found));
    while i < fields.len()
        invariant
            i <= fields@.len(),
            all == names_of(fields@),
            others == names_of(original_fields@),
            found == conflicting_names(all.take(i as int), others),
            count == found.len(),
            count <= i,
            message@ == redefinition_message(found),
        decreases fields@.len() - i,
    {
        let name = fields[i].name.value.as_str();
        assert(all.take(i + 1).drop_last() =~= all.take(i as int));
        assert(all.take(i + 1).last() == name@);
        if has_field_named(original_fields, name) {
            if count > 0 {
                message.append(", ");
            }
            message.append(name);
            proof {
                let grown = found.push(name@);
                assert(grown.drop_last() =~= found);
                assert(message@ =~= redefinition_message(grown));
                found = grown;
            }
            count = count + 1;
        }
        i = i + 1;
    }
    assert(all.take(i as int) =~= all);
    if count > 0 {
        Err(ValidationError { message })
    } else {
        Ok(())
    }
}

} // verus!
