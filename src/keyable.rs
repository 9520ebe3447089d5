use vstd::prelude::*;

verus! {

/// One named field of a structure declaration: its name and its declared type, as source text.
pub struct FieldDecl {
    pub name: String,
    pub ty: String,
}

/// The shape of a declaration handed to the `Keyable` generator.
pub enum DeclShape {
    /// A structure whose fields are all named, in declaration order.
    Named(Vec<FieldDecl>),
    /// A structure with positional fields only; holds their number.
    Unnamed(usize),
    /// A structure without fields.
    Unit,
    /// An enum or a union.
    NotStruct,
}

/// What the generator emits for one field: a field constant named `name`, of type
/// `KeyPath<id>`, and the three projections of the container onto a value of type `ty`.
pub struct FieldToken {
    pub name: String,
    pub ty: String,
    pub id: u64,
}

/// Why a declaration cannot be made keyable.
pub enum KeyableError {
    /// The declaration is not a structure with named fields.
    NotNamedFields,
}

impl KeyableError {
    /// The diagnostic reported at the declaration.
    pub fn message(&self) -> (r: String)
        ensures
            r@ == keyable_diagnostic(),
    {
        match self {
            KeyableError::NotNamedFields => {
                "The Keyable macro can only be used on structs with named fields".to_owned()
            },
        }
    }
}

/// The diagnostic for a declaration without named fields.
pub open spec fn keyable_diagnostic() -> Seq<char> {
    "The Keyable macro can only be used on structs with named fields"@
}

/// The field token that a declared field yields at position `i`.
pub open spec fn token_of(f: FieldDecl, i: int) -> FieldToken {
    FieldToken { name: f.name, ty: f.ty, id: i as u64 }
}

/// Plans the generator's output for a declaration: one field token per named field, in
/// declaration order, each identified by its position. Any other shape is refused, and then
/// nothing at all is generated.
pub fn plan_keyable(shape: &DeclShape) -> (r: Result<Vec<FieldToken>, KeyableError>)
    ensures
        r is Ok <==> shape is Named,
        shape matches DeclShape::Named(fields) ==> r matches Ok(tokens) && tokens@ == fields@.map(
            |i: int, f: FieldDecl| token_of(f, i),
        ),
        r matches Err(e) ==> e == KeyableError::NotNamedFields,
{
    match shape {
        DeclShape::Named(fields) => {
            let mut tokens: Vec<FieldToken> = Vec::new();
            let mut i: usize = 0;
            while i < fields.len()
                invariant
                    i <= fields.len(),
                    tokens@ == fields@.take(i as int).map(|j: int, f: FieldDecl| token_of(f, j)),
                decreases fields.len() - i,
            {
                let f = &fields[i];
                tokens.push(FieldToken { name: f.name.clone(), ty: f.ty.clone(), id: i as u64 });
                proof {
                    assert(fields@.take(i + 1) == fields@.take(i as int).push(fields@[i as int]));
                }
                i = i + 1;
            }
            proof {
                assert(fields@.take(fields@.len() as int) == fields@);
            }
            Ok(tokens)
        },
        _ => Err(KeyableError::NotNamedFields),
    }
}

} // verus!
