use vstd::prelude::*;

verus! {

/// A snapshot of environment variables, as (name, value) pairs in the order
/// in which the process listed them.
pub struct Env {
    pub vars: Vec<(String, String)>,
}

/// The view of one variable.
pub open spec fn var_view(v: (String, String)) -> (Seq<char>, Seq<char>) {
    (v.0@, v.1@)
}

/// Value of the first variable named `name` at position `i` or later.
pub open spec fn find_var(vars: Seq<(Seq<char>, Seq<char>)>, name: Seq<char>, i: int) -> Option<
    Seq<char>,
>
    decreases vars.len() - i,
{
    if i < 0 || i >= vars.len() {
        None
    } else if vars[i].0 == name {
        Some(vars[i].1)
    } else {
        find_var(vars, name, i + 1)
    }
}

impl View for Env {
    type V = Seq<(Seq<char>, Seq<char>)>;

    open spec fn view(&self) -> Seq<(Seq<char>, Seq<char>)> {
        self.vars@.map_values(|v: (String, String)| var_view(v))
    }
}

impl Env {
    /// Value of the variable `name`, if it is set.
    pub open spec fn get_spec(&self, name: Seq<char>) -> Option<Seq<char>> {
        find_var(self@, name, 0)
    }

    /// An empty snapshot.
    pub fn new() -> (r: Env)
        ensures
            r@.len() == 0,
    {
        Env { vars: Vec::new() }
    }

    /// Adds the variable `name` with `value` at the end of the snapshot.
    pub fn insert(&mut self, name: &str, value: &str)
        ensures
            final(self)@ == old(self)@.push((name@, value@)),
    {
        self.vars.push((String::from_str(name), String::from_str(value)));
        assert(final(self)@ =~= old(self)@.push((name@, value@)));
    }

    /// Looks up the variable `name`; the first entry of that name wins.
    pub fn get(&self, name: &str) -> (r: Option<String>)
        ensures
            r matches Some(v) ==> self.get_spec(name@) == Some(v@),
            r is None ==> self.get_spec(name@) is None,
    {
        let key = String::from_str(name);
        let n = self.vars.len();
        let mut i: usize = 0;
        while i < n
            invariant
                n == self.vars@.len(),
                0 <= i <= n,
                key@ == name@,
                find_var(self@, name@, 0) == find_var(self@, name@, i as int),
            decreases n - i,
        {
            if self.vars[i].0 == key {
                return Some(self.vars[i].1.clone());
            }
            i = i + 1;
        }
        None
    }
}

} // verus!
