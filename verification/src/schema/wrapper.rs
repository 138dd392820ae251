//! Wrappers that own, share or guard a value describe themselves as the
//! value does: they are invisible on the wire.

use vstd::prelude::*;
use crate::openapi::{Components, Registry, Schema, SchemaView};
use crate::schema::{spec_schema_ref, ToSchema};

verus! {

/// The standard library's mutual-exclusion lock, known to Verus as an
/// opaque type.
#[verifier::external_type_specification]
#[verifier::external_body]
#[verifier::reject_recursive_types(T)]
pub struct ExMutex<T: ?Sized>(std::sync::Mutex<T>);

/// The standard library's reader-writer lock, known to Verus as an opaque
/// type.
#[verifier::external_type_specification]
#[verifier::external_body]
#[verifier::reject_recursive_types(T)]
pub struct ExRwLock<T: ?Sized>(std::sync::RwLock<T>);

/// The standard library's copyable cell, known to Verus as an opaque type.
#[verifier::external_type_specification]
#[verifier::external_body]
#[verifier::reject_recursive_types(T)]
pub struct ExCell<T: ?Sized>(std::cell::Cell<T>);

/// The standard library's borrow-checked cell, known to Verus as an opaque
/// type.
#[verifier::external_type_specification]
#[verifier::external_body]
#[verifier::reject_recursive_types(T)]
pub struct ExRefCell<T: ?Sized>(std::cell::RefCell<T>);

/// The standard library's wrapping-arithmetic number, known to Verus as an
/// opaque type.
#[verifier::external_type_specification]
#[verifier::external_body]
#[verifier::reject_recursive_types(T)]
pub struct ExWrapping<T>(std::num::Wrapping<T>);

/// The standard library's reverse-order wrapper, known to Verus as an opaque
/// type.
#[verifier::external_type_specification]
#[verifier::external_body]
#[verifier::reject_recursive_types(T)]
pub struct ExReverse<T>(std::cmp::Reverse<T>);

impl<'a, T: ToSchema + ?Sized> ToSchema for &'a T {
    open spec fn spec_name() -> Option<Seq<char>> {
        T::spec_name()
    }

    open spec fn spec_schema(reg: Registry) -> (SchemaView, Registry) {
        T::spec_schema(reg)
    }

    proof fn lemma_schema(reg: Registry) {
        T::lemma_schema(reg);
    }

    fn name() -> (r: Option<String>) {
        T::name()
    }

    fn schema(components: &mut Components) -> (r: Schema) {
        T::schema(components)
    }
}

impl<'a, T: ToSchema + ?Sized> ToSchema for &'a mut T {
    open spec fn spec_name() -> Option<Seq<char>> {
        T::spec_name()
    }

    open spec fn spec_schema(reg: Registry) -> (SchemaView, Registry) {
        T::spec_schema(reg)
    }

    proof fn lemma_schema(reg: Registry) {
        T::lemma_schema(reg);
    }

    fn name() -> (r: Option<String>) {
        T::name()
    }

    fn schema(components: &mut Components) -> (r: Schema) {
        T::schema(components)
    }
}

impl<T: ToSchema + ?Sized> ToSchema for Box<T> {
    open spec fn spec_name() -> Option<Seq<char>> {
        T::spec_name()
    }

    open spec fn spec_schema(reg: Registry) -> (SchemaView, Registry) {
        T::spec_schema(reg)
    }

    proof fn lemma_schema(reg: Registry) {
        T::lemma_schema(reg);
    }

    fn name() -> (r: Option<String>) {
        T::name()
    }

    fn schema(components: &mut Components) -> (r: Schema) {
        T::schema(components)
    }
}

impl<T: ToSchema + ?Sized> ToSchema for std::rc::Rc<T> {
    open spec fn spec_name() -> Option<Seq<char>> {
        T::spec_name()
    }

    open spec fn spec_schema(reg: Registry) -> (SchemaView, Registry) {
        T::spec_schema(reg)
    }

    proof fn lemma_schema(reg: Registry) {
        T::lemma_schema(reg);
    }

    fn name() -> (r: Option<String>) {
        T::name()
    }

    fn schema(components: &mut Components) -> (r: Schema) {
        T::schema(components)
    }
}

impl<T: ToSchema + ?Sized> ToSchema for std::sync::Arc<T> {
    open spec fn spec_name() -> Option<Seq<char>> {
        T::spec_name()
    }

    open spec fn spec_schema(reg: Registry) -> (SchemaView, Registry) {
        T::spec_schema(reg)
    }

    proof fn lemma_schema(reg: Registry) {
        T::lemma_schema(reg);
    }

    fn name() -> (r: Option<String>) {
        T::name()
    }

    fn schema(components: &mut Components) -> (r: Schema) {
        T::schema(components)
    }
}

impl<T: ToSchema + ?Sized> ToSchema for std::sync::Mutex<T> {
    open spec fn spec_name() -> Option<Seq<char>> {
        T::spec_name()
    }

    open spec fn spec_schema(reg: Registry) -> (SchemaView, Registry) {
        T::spec_schema(reg)
    }

    proof fn lemma_schema(reg: Registry) {
        T::lemma_schema(reg);
    }

    fn name() -> (r: Option<String>) {
        T::name()
    }

    fn schema(components: &mut Components) -> (r: Schema) {
        T::schema(components)
    }
}

impl<T: ToSchema + ?Sized> ToSchema for std::sync::RwLock<T> {
    open spec fn spec_name() -> Option<Seq<char>> {
        T::spec_name()
    }

    open spec fn spec_schema(reg: Registry) -> (SchemaView, Registry) {
        T::spec_schema(reg)
    }

    proof fn lemma_schema(reg: Registry) {
        T::lemma_schema(reg);
    }

    fn name() -> (r: Option<String>) {
        T::name()
    }

    fn schema(components: &mut Components) -> (r: Schema) {
        T::schema(components)
    }
}

impl<T: ToSchema + ?Sized> ToSchema for std::cell::Cell<T> {
    open spec fn spec_name() -> Option<Seq<char>> {
        T::spec_name()
    }

    open spec fn spec_schema(reg: Registry) -> (SchemaView, Registry) {
        T::spec_schema(reg)
    }

    proof fn lemma_schema(reg: Registry) {
        T::lemma_schema(reg);
    }

    fn name() -> (r: Option<String>) {
        T::name()
    }

    fn schema(components: &mut Components) -> (r: Schema) {
        T::schema(components)
    }
}

impl<T: ToSchema + ?Sized> ToSchema for std::cell::RefCell<T> {
    open spec fn spec_name() -> Option<Seq<char>> {
        T::spec_name()
    }

    open spec fn spec_schema(reg: Registry) -> (SchemaView, Registry) {
        T::spec_schema(reg)
    }

    proof fn lemma_schema(reg: Registry) {
        T::lemma_schema(reg);
    }

    fn name() -> (r: Option<String>) {
        T::name()
    }

    fn schema(components: &mut Components) -> (r: Schema) {
        T::schema(components)
    }
}

impl<'a, T: ToSchema + ?Sized + ToOwned> ToSchema for std::borrow::Cow<'a, T> {
    open spec fn spec_name() -> Option<Seq<char>> {
        T::spec_name()
    }

    open spec fn spec_schema(reg: Registry) -> (SchemaView, Registry) {
        T::spec_schema(reg)
    }

    proof fn lemma_schema(reg: Registry) {
        T::lemma_schema(reg);
    }

    fn name() -> (r: Option<String>) {
        T::name()
    }

    fn schema(components: &mut Components) -> (r: Schema) {
        T::schema(components)
    }
}

impl<T: ToSchema> ToSchema for std::num::Wrapping<T> {
    open spec fn spec_name() -> Option<Seq<char>> {
        T::spec_name()
    }

    open spec fn spec_schema(reg: Registry) -> (SchemaView, Registry) {
        T::spec_schema(reg)
    }

    proof fn lemma_schema(reg: Registry) {
        T::lemma_schema(reg);
    }

    fn name() -> (r: Option<String>) {
        T::name()
    }

    fn schema(components: &mut Components) -> (r: Schema) {
        T::schema(components)
    }
}

impl<T: ToSchema> ToSchema for std::cmp::Reverse<T> {
    open spec fn spec_name() -> Option<Seq<char>> {
        T::spec_name()
    }

    open spec fn spec_schema(reg: Registry) -> (SchemaView, Registry) {
        T::spec_schema(reg)
    }

    proof fn lemma_schema(reg: Registry) {
        T::lemma_schema(reg);
    }

    fn name() -> (r: Option<String>) {
        T::name()
    }

    fn schema(components: &mut Components) -> (r: Schema) {
        T::schema(components)
    }
}

/// A wrapper has the schema of what it wraps.
///
/// Each wrapper of `T` has `T`'s name and `T`'s schema, title, kind and
/// nested structure included, and registers what `T` registers.
pub proof fn lemma_wrapper_transparent<T: ToSchema>(reg: Registry)
    ensures
        <&T>::spec_schema(reg) == T::spec_schema(reg),
        <&mut T>::spec_schema(reg) == T::spec_schema(reg),
        Box::<T>::spec_schema(reg) == T::spec_schema(reg),
        std::rc::Rc::<T>::spec_schema(reg) == T::spec_schema(reg),
        std::sync::Arc::<T>::spec_schema(reg) == T::spec_schema(reg),
        std::sync::Mutex::<T>::spec_schema(reg) == T::spec_schema(reg),
        std::sync::RwLock::<T>::spec_schema(reg) == T::spec_schema(reg),
        std::cell::Cell::<T>::spec_schema(reg) == T::spec_schema(reg),
        std::cell::RefCell::<T>::spec_schema(reg) == T::spec_schema(reg),
        std::num::Wrapping::<T>::spec_schema(reg) == T::spec_schema(reg),
        std::cmp::Reverse::<T>::spec_schema(reg) == T::spec_schema(reg),
        Box::<T>::spec_name() == T::spec_name(),
        spec_schema_ref::<Box<T>>(reg) == spec_schema_ref::<T>(reg),
{
}

/// A copy-on-write wrapper has the schema of what it wraps.
pub proof fn lemma_cow_transparent<'a, T: ToSchema + ToOwned>(reg: Registry)
    ensures
        std::borrow::Cow::<'a, T>::spec_schema(reg) == T::spec_schema(reg),
{
}

/// A wrapper must be present where it is a property, whatever it wraps: an
/// optional value included.
pub proof fn lemma_wrappers_required<T: ToSchema>()
    ensures
        <&T>::REQUIRED,
        <&mut T>::REQUIRED,
        Box::<T>::REQUIRED,
        std::rc::Rc::<T>::REQUIRED,
        std::sync::Arc::<T>::REQUIRED,
        std::sync::Mutex::<T>::REQUIRED,
        std::sync::RwLock::<T>::REQUIRED,
        std::cell::Cell::<T>::REQUIRED,
        std::cell::RefCell::<T>::REQUIRED,
        std::num::Wrapping::<T>::REQUIRED,
        std::cmp::Reverse::<T>::REQUIRED,
{
}

/// A copy-on-write wrapper must be present where it is a property.
pub proof fn lemma_cow_required<'a, T: ToSchema + ToOwned>()
    ensures
        std::borrow::Cow::<'a, T>::REQUIRED,
{
}

/// A wrapper is referred to as what it wraps is: by the same name and token
/// where that has a name, and in place where it has none.
pub proof fn lemma_wrapper_reference<T: ToSchema>(reg: Registry)
    ensures
        spec_schema_ref::<&T>(reg) == spec_schema_ref::<T>(reg),
        spec_schema_ref::<&mut T>(reg) == spec_schema_ref::<T>(reg),
        spec_schema_ref::<Box<T>>(reg) == spec_schema_ref::<T>(reg),
        spec_schema_ref::<std::rc::Rc<T>>(reg) == spec_schema_ref::<T>(reg),
        spec_schema_ref::<std::sync::Arc<T>>(reg) == spec_schema_ref::<T>(reg),
        spec_schema_ref::<std::sync::Mutex<T>>(reg) == spec_schema_ref::<T>(reg),
        spec_schema_ref::<std::sync::RwLock<T>>(reg) == spec_schema_ref::<T>(reg),
        spec_schema_ref::<std::cell::Cell<T>>(reg) == spec_schema_ref::<T>(reg),
        spec_schema_ref::<std::cell::RefCell<T>>(reg) == spec_schema_ref::<T>(reg),
        spec_schema_ref::<std::num::Wrapping<T>>(reg) == spec_schema_ref::<T>(reg),
        spec_schema_ref::<std::cmp::Reverse<T>>(reg) == spec_schema_ref::<T>(reg),
{
}

/// An optional wrapper has the schema of the optional value that it wraps.
pub proof fn lemma_wrapper_transparent_in_option<T: ToSchema>(reg: Registry)
    ensures
        Option::<&T>::spec_schema(reg) == Option::<T>::spec_schema(reg),
        Option::<&mut T>::spec_schema(reg) == Option::<T>::spec_schema(reg),
        Option::<Box<T>>::spec_schema(reg) == Option::<T>::spec_schema(reg),
        Option::<std::rc::Rc<T>>::spec_schema(reg) == Option::<T>::spec_schema(reg),
        Option::<std::sync::Arc<T>>::spec_schema(reg) == Option::<T>::spec_schema(reg),
        Option::<std::sync::Mutex<T>>::spec_schema(reg) == Option::<T>::spec_schema(reg),
        Option::<std::sync::RwLock<T>>::spec_schema(reg) == Option::<T>::spec_schema(reg),
        Option::<std::cell::Cell<T>>::spec_schema(reg) == Option::<T>::spec_schema(reg),
        Option::<std::cell::RefCell<T>>::spec_schema(reg) == Option::<T>::spec_schema(reg),
        Option::<std::num::Wrapping<T>>::spec_schema(reg) == Option::<T>::spec_schema(reg),
        Option::<std::cmp::Reverse<T>>::spec_schema(reg) == Option::<T>::spec_schema(reg),
{
}

} // verus!
