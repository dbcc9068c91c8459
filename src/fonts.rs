use vstd::prelude::*;

verus! {

/// Collects the names of the first `count` fonts of the table, asking
/// `name_of` for each index in turn.
pub fn get_font_names<F: Fn(u8) -> String>(count: u8, name_of: F) -> (r: Vec<String>)
    requires
        forall|i: u8| i < count ==> name_of.requires((i,)),
    ensures
        r.len() == count,
        forall|i: int| 0 <= i < count ==> name_of.ensures((i as u8,), #[trigger] r[i]),
{
    let mut names: Vec<String> = Vec::new();
    let mut i: u8 = 0;
    while i < count
        invariant
            i <= count,
            names.len() == i,
            forall|j: u8| j < count ==> name_of.requires((j,)),
            forall|j: int| 0 <= j < i ==> name_of.ensures((j as u8,), #[trigger] names[j]),
        decreases count - i,
    {
        let name = name_of(i);
        names.push(name);
        i = i + 1;
    }
    names
}

/// Finds the first index whose font name is `name`; `None` when no font of
/// the table has that name.
pub fn get_font_index(names: &Vec<String>, name: &str) -> (r: Option<u8>)
    requires
        names.len() <= 256,
    ensures
        match r {
            Some(i) => {
                &&& i < names.len()
                &&& names[i as int]@ == name@
                &&& forall|j: int| 0 <= j < i ==> #[trigger] names[j]@ != name@
            },
            None => forall|j: int| 0 <= j < names.len() ==> #[trigger] names[j]@ != name@,
        },
{
    let wanted = name.to_owned();
    let mut i: usize = 0;
    while i < names.len()
        invariant
            i <= names.len() <= 256,
            wanted@ == name@,
            forall|j: int| 0 <= j < i ==> #[trigger] names[j]@ != name@,
        decreases names.len() - i,
    {
        if names[i] == wanted {
            return Some(i as u8);
        }
        i = i + 1;
    }
    None
}

} // verus!
