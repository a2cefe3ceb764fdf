use vstd::prelude::*;

verus! {

/// A dynamically typed value handed to the attribute builder's key-based
/// setter, as a scripting host would supply it.
pub enum AttrValue {
    /// No value: clears the attribute.
    Null,
    /// A whole number.
    Int(i64),
    /// A number with a fractional part, in hundredths (`99.5` is `9950`).
    Hundredths(u32),
    /// A piece of text.
    Text(String),
}

} // verus!
