use vstd::prelude::*;

verus! {

/// # Constant defaults
///
/// A type with a default value that is known at compile time. The trait is
/// implemented here for `bool`, `char` and the integer types; a struct gets
/// it from the code that is derived for it, and any other type by an
/// implementation written by hand:
///
/// ```
/// use constant::Constdef;
///
/// struct MyWeirdBool(bool);
///
/// impl Constdef for MyWeirdBool {
///     const DEFAULT: MyWeirdBool = MyWeirdBool(false);
/// }
/// ```
pub trait Constdef: Sized {
    /// The default value for Self
    const DEFAULT: Self;
}

impl Constdef for bool {
    const DEFAULT: Self = false;
}

impl Constdef for char {
    const DEFAULT: Self = '\0';
}

impl Constdef for u8 {
    const DEFAULT: Self = 0;
}

impl Constdef for u16 {
    const DEFAULT: Self = 0;
}

impl Constdef for u32 {
    const DEFAULT: Self = 0;
}

impl Constdef for u64 {
    const DEFAULT: Self = 0;
}

impl Constdef for u128 {
    const DEFAULT: Self = 0;
}

impl Constdef for usize {
    const DEFAULT: Self = 0;
}

impl Constdef for i8 {
    const DEFAULT: Self = 0;
}

impl Constdef for i16 {
    const DEFAULT: Self = 0;
}

impl Constdef for i32 {
    const DEFAULT: Self = 0;
}

impl Constdef for i64 {
    const DEFAULT: Self = 0;
}

impl Constdef for i128 {
    const DEFAULT: Self = 0;
}

impl Constdef for isize {
    const DEFAULT: Self = 0;
}

/// The constant defaults of the primitive types are what `Default` gives
/// for them: `false`, the NUL character, and zero.
pub proof fn primitive_defaults()
    ensures
        <bool as Constdef>::DEFAULT == false,
        <char as Constdef>::DEFAULT == '\0',
        <u8 as Constdef>::DEFAULT == 0,
        <u16 as Constdef>::DEFAULT == 0,
        <u32 as Constdef>::DEFAULT == 0,
        <u64 as Constdef>::DEFAULT == 0,
        <u128 as Constdef>::DEFAULT == 0,
        <usize as Constdef>::DEFAULT == 0,
        <i8 as Constdef>::DEFAULT == 0,
        <i16 as Constdef>::DEFAULT == 0,
        <i32 as Constdef>::DEFAULT == 0,
        <i64 as Constdef>::DEFAULT == 0,
        <i128 as Constdef>::DEFAULT == 0,
        <isize as Constdef>::DEFAULT == 0,
{
}

} // verus!
