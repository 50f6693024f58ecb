//! Numbers and arrays.
use vstd::prelude::*;

verus! {

/// The names of the months, in the order of the year.
pub open spec fn month_names() -> Seq<Seq<char>> {
    seq![
        "January"@,
        "February"@,
        "March"@,
        "April"@,
        "May"@,
        "June"@,
        "July"@,
        "August"@,
        "September"@,
        "October"@,
        "November"@,
        "December"@,
    ]
}

/// The arrays that [`_array_type`] makes.
pub struct Arrays {
    /// The numbers from one to five, written out.
    pub a: [i32; 5],
    /// The names of the months.
    pub months: [&'static str; 12],
    /// The numbers from one to five again, with the type written out.
    pub b: [i32; 5],
    /// Five threes, written as one three and a count.
    pub x: [i32; 5],
    /// Five threes, written out.
    pub y: [i32; 5],
}

/// Makes arrays in the ways there are: by listing the items, with or without
/// the type, and by giving one item and a count. The two arrays of threes are
/// the same whichever way they were written.
pub fn _array_type() -> (arrays: Arrays)
    ensures
        arrays.a@ == seq![1i32, 2, 3, 4, 5],
        arrays.months@.map_values(|name: &'static str| name@) == month_names(),
        arrays.b@ == arrays.a@,
        arrays.x@ == seq![3i32, 3, 3, 3, 3],
        arrays.y@ == arrays.x@,
{
    let _a = [1, 2, 3, 4, 5];
    let _months = [
        "January",
        "February",
        "March",
        "April",
        "May",
        "June",
        "July",
        "August",
        "September",
        "October",
        "November",
        "December",
    ];
    let _b: [i32; 5] = [1, 2, 3, 4, 5];
    let _x = [3; 5];
    let _y = [3, 3, 3, 3, 3];
    proof {
        assert(_a@ =~= seq![1i32, 2, 3, 4, 5]);
        assert(_b@ =~= _a@);
        assert(_x@ =~= seq![3i32, 3, 3, 3, 3]);
        assert(_y@ =~= _x@);
        assert(_months@.map_values(|name: &'static str| name@) =~= month_names());
    }
    Arrays { a: _a, months: _months, b: _b, x: _x, y: _y }
}

} // verus!
