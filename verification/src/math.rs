//! Two-dimensional value types: points and sizes.
use vstd::prelude::*;
use std::ops::{Deref, DerefMut};

verus! {

/// The pair of components shared by [`Vector2`] and [`Dimensions2`].
///
/// Use [`Vector2`], [`Point2`] or [`Dimensions2`] rather than this type.
#[derive(Clone)]
pub struct Vector2Base<T> {
    x: T,
    y: T,
}

impl<T> Vector2Base<T> {
    /// The first component: `x` of a vector, `height` of a size.
    pub closed spec fn first(&self) -> T {
        self.x
    }

    /// The second component: `y` of a vector, `width` of a size.
    pub closed spec fn second(&self) -> T {
        self.y
    }
}

/// Calls `num::Zero::is_zero` for `u32`, which compares the value with 0.
#[verifier::external_body]
fn u32_is_zero(value: &u32) -> (zero: bool)
    ensures
        zero == (*value == 0),
{
    num::Zero::is_zero(value)
}

impl Vector2Base<u32> {
    /// Returns whether either component is zero.
    pub fn is_zero(&self) -> (zero: bool)
        ensures
            zero == (self.first() == 0 || self.second() == 0),
    {
        u32_is_zero(&self.x) || u32_is_zero(&self.y)
    }
}

/// A point in two-dimensional space.
pub type Point2<T> = Vector2<T>;

/// A two-dimensional vector.
#[derive(Clone)]
pub struct Vector2<T>(Vector2Base<T>);

impl<T> Vector2<T> {
    /// The `x` component, for use in contracts.
    pub closed spec fn spec_x(&self) -> T {
        self.0.x
    }

    /// The `y` component, for use in contracts.
    pub closed spec fn spec_y(&self) -> T {
        self.0.y
    }

    /// Two vectors with the same components are the same vector.
    pub proof fn lemma_components_determine(a: Self, b: Self)
        requires
            a.spec_x() == b.spec_x(),
            a.spec_y() == b.spec_y(),
        ensures
            a == b,
    {
    }

    pub fn new(x: T, y: T) -> (v: Self)
        ensures
            v.spec_x() == x,
            v.spec_y() == y,
    {
        Self(Vector2Base { x, y })
    }

    /// Get an immutable reference to this vector's `x` component.
    pub fn x_ref(&self) -> (x: &T)
        ensures
            *x == self.spec_x(),
    {
        &self.0.x
    }

    /// Get an immutable reference to this vector's `y` component.
    pub fn y_ref(&self) -> (y: &T)
        ensures
            *y == self.spec_y(),
    {
        &self.0.y
    }

    /// Get a mutable reference to this vector's `x` component.
    pub fn x_mut(&mut self) -> (x: &mut T)
        ensures
            *x == old(self).spec_x(),
            final(self).spec_x() == *final(x),
            final(self).spec_y() == old(self).spec_y(),
    {
        &mut self.0.x
    }

    /// Get a mutable reference to this vector's `y` component.
    pub fn y_mut(&mut self) -> (y: &mut T)
        ensures
            *y == old(self).spec_y(),
            final(self).spec_y() == *final(y),
            final(self).spec_x() == old(self).spec_x(),
    {
        &mut self.0.y
    }
}

impl<T: Copy> Vector2<T> {
    /// Get this vector's `x` component.
    pub fn x(&self) -> (x: T)
        ensures
            x == self.spec_x(),
    {
        self.0.x
    }

    /// Get this vector's `y` component.
    pub fn y(&self) -> (y: T)
        ensures
            y == self.spec_y(),
    {
        self.0.y
    }
}

impl<T> Deref for Vector2<T> {
    type Target = Vector2Base<T>;

    fn deref(&self) -> (base: &Vector2Base<T>)
        ensures
            base.first() == self.spec_x(),
            base.second() == self.spec_y(),
    {
        &self.0
    }
}

impl<T> DerefMut for Vector2<T> {
    fn deref_mut(&mut self) -> (base: &mut Vector2Base<T>)
        ensures
            base.first() == old(self).spec_x(),
            base.second() == old(self).spec_y(),
            final(self).spec_x() == final(base).first(),
            final(self).spec_y() == final(base).second(),
    {
        &mut self.0
    }
}

/// A size in two-dimensional space.
#[derive(Clone)]
pub struct Dimensions2<T>(Vector2Base<T>);

impl<T> Dimensions2<T> {
    /// The `height` dimension, for use in contracts.
    pub closed spec fn spec_height(&self) -> T {
        self.0.x
    }

    /// The `width` dimension, for use in contracts.
    pub closed spec fn spec_width(&self) -> T {
        self.0.y
    }

    /// Two sizes with the same height and width are the same size.
    pub proof fn lemma_dimensions_determine(a: Self, b: Self)
        requires
            a.spec_height() == b.spec_height(),
            a.spec_width() == b.spec_width(),
        ensures
            a == b,
    {
    }

    pub fn new(height: T, width: T) -> (d: Self)
        ensures
            d.spec_height() == height,
            d.spec_width() == width,
    {
        Self(Vector2Base { x: height, y: width })
    }

    /// Get an immutable reference to the `height` dimension.
    pub fn height_ref(&self) -> (height: &T)
        ensures
            *height == self.spec_height(),
    {
        &self.0.x
    }

    /// Get an immutable reference to the `width` dimension.
    pub fn width_ref(&self) -> (width: &T)
        ensures
            *width == self.spec_width(),
    {
        &self.0.y
    }

    /// Get a mutable reference to the `height` dimension.
    pub fn height_mut(&mut self) -> (height: &mut T)
        ensures
            *height == old(self).spec_height(),
            final(self).spec_height() == *final(height),
            final(self).spec_width() == old(self).spec_width(),
    {
        &mut self.0.x
    }

    /// Get a mutable reference to the `width` dimension.
    pub fn width_mut(&mut self) -> (width: &mut T)
        ensures
            *width == old(self).spec_width(),
            final(self).spec_width() == *final(width),
            final(self).spec_height() == old(self).spec_height(),
    {
        &mut self.0.y
    }
}

impl<T: Copy> Dimensions2<T> {
    /// Get the `height` dimension.
    pub fn height(&self) -> (height: T)
        ensures
            height == self.spec_height(),
    {
        self.0.x
    }

    /// Get the `width` dimension.
    pub fn width(&self) -> (width: T)
        ensures
            width == self.spec_width(),
    {
        self.0.y
    }
}

impl<T> Deref for Dimensions2<T> {
    type Target = Vector2Base<T>;

    fn deref(&self) -> (base: &Vector2Base<T>)
        ensures
            base.first() == self.spec_height(),
            base.second() == self.spec_width(),
    {
        &self.0
    }
}

impl<T> DerefMut for Dimensions2<T> {
    fn deref_mut(&mut self) -> (base: &mut Vector2Base<T>)
        ensures
            base.first() == old(self).spec_height(),
            base.second() == old(self).spec_width(),
            final(self).spec_height() == final(base).first(),
            final(self).spec_width() == final(base).second(),
    {
        &mut self.0
    }
}

} // verus!
