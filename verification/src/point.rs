//! A named point with any number of coordinates of any one type.

use vstd::prelude::*;
use vstd::string::StringExecFns;
use std::fmt::Debug;
use std::ops::Index;

verus! {

/// What a `Point` stands for.
pub struct PointView<T> {
    pub coordinates: Seq<T>,
    pub name: Seq<char>,
}

/// A named point.
#[derive(Debug, Default, Clone)]
pub struct Point<T> where T: Debug + Default + Clone {
    coordinates: Vec<T>,
    name: String,
}

impl<T> View for Point<T> where T: Debug + Default + Clone {
    type V = PointView<T>;

    closed spec fn view(&self) -> PointView<T> {
        PointView { coordinates: self.coordinates@, name: self.name@ }
    }
}

impl<T> vstd::std_specs::core::IndexSpecImpl<usize> for Point<T> where T: Debug + Default + Clone {
    open spec fn index_req(&self, index: &usize) -> bool {
        *index < self@.coordinates.len()
    }
}

impl<T> Index<usize> for Point<T> where T: Debug + Default + Clone {
    type Output = T;

    /// The coordinate at `index`.
    fn index(&self, index: usize) -> (coordinate: &T)
        ensures
            *coordinate == self@.coordinates[index as int],
    {
        &self.coordinates[index]
    }
}

/// The text of `parts`, each followed by one space.
pub open spec fn spaced(parts: Seq<Seq<char>>) -> Seq<char>
    decreases parts.len(),
{
    if parts.len() == 0 {
        Seq::empty()
    } else {
        spaced(parts.drop_last()) + parts.last() + " "@
    }
}

/// `format!` with `{:?}`: the text that the `Debug` impl of `T` writes for
/// `value`. Nothing is claimed of it.
#[verifier::external_body]
fn debug_text<T: Debug>(value: &T) -> (text: String) {
    format!("{:?}", value)
}

impl<T> Point<T> where T: Debug + Default + Clone {
    /// The point with these coordinates and this name.
    pub fn new(coordinates: Vec<T>, name: &str) -> (point: Self)
        ensures
            point@ == (PointView { coordinates: coordinates@, name: name@ }),
    {
        Point { coordinates, name: String::from_str(name) }
    }

    /// Renames the point.
    pub fn set_name(&mut self, name: &str)
        ensures
            final(self)@ == (PointView { coordinates: old(self)@.coordinates, name: name@ }),
    {
        self.name = String::from_str(name);
    }

    /// The coordinate at `index`, to be changed in place.
    pub fn index_mut(&mut self, index: usize) -> (coordinate: &mut T)
        requires
            index < old(self)@.coordinates.len(),
        ensures
            *coordinate == old(self)@.coordinates[index as int],
            final(self)@ == (PointView {
                coordinates: old(self)@.coordinates.update(index as int, *final(coordinate)),
                name: old(self)@.name,
            }),
    {
        &mut self.coordinates[index]
    }

    /// The number of coordinates.
    pub fn dimension(&self) -> (count: usize)
        ensures
            count == self@.coordinates.len(),
    {
        self.coordinates.len()
    }

    /// The coordinates as text, in order, each as its `Debug` impl writes it
    /// and each followed by one space.
    pub fn get_coords_string(&self) -> (coords: String)
        ensures
            exists|parts: Seq<Seq<char>>|
                parts.len() == self@.coordinates.len() && coords@ == #[trigger] spaced(parts),
    {
        let mut coords: String = String::from_str("");
        let ghost mut parts: Seq<Seq<char>> = Seq::empty();
        proof {
            reveal_strlit("");
            assert(coords@ =~= spaced(parts));
        }
        let mut i: usize = 0;
        while i < self.coordinates.len()
            invariant
                i <= self.coordinates.len(),
                parts.len() == i,
                coords@ == spaced(parts),
            decreases self.coordinates.len() - i,
        {
            let part = debug_text(&self.coordinates[i]);
            let ghost earlier = parts;
            coords.append(part.as_str());
            coords.append(" ");
            proof {
                parts = earlier.push(part@);
                assert(parts.drop_last() =~= earlier);
                assert(coords@ =~= spaced(parts));
            }
            i = i + 1;
        }
        coords
    }

    /// The point's name.
    pub fn get_name<'a>(&'a mut self) -> (name: &'a str)
        ensures
            name@ == old(self)@.name,
            *final(self) == *old(self),
    {
        self.name.as_str()
    }
}

} // verus!
