use vstd::prelude::*;

verus! {

/// `s` without the items equal to `item`, in order.
pub open spec fn without_item(s: Seq<Seq<char>>, item: Seq<char>) -> Seq<Seq<char>>
    decreases s.len(),
{
    if s.len() == 0 {
        s
    } else if s.last() != item {
        without_item(s.drop_last(), item).push(s.last())
    } else {
        without_item(s.drop_last(), item)
    }
}

/// The app names in front-to-back order of display, the last one on top.
#[derive(Debug)]
pub struct Stack {
    stack: Vec<String>,
}

impl Stack {
    /// The names, bottom first.
    pub closed spec fn view(&self) -> Seq<Seq<char>> {
        self.stack@.map_values(|s: String| s@)
    }

    pub fn new() -> (r: Stack)
        ensures
            r@ == Seq::<Seq<char>>::empty(),
    {
        Stack { stack: Vec::new() }
    }

    /// The name on top.
    pub fn peek(&self) -> (r: Option<&String>)
        ensures
            match r {
                Some(s) => self@.len() > 0 && s@ == self@.last(),
                None => self@.len() == 0,
            },
    {
        let r = self.stack.as_slice().last();
        proof {
            if self.stack@.len() > 0 {
                assert(self@.last() == self.stack@.last()@);
            }
        }
        r
    }

    /// Puts `item` on top.
    pub fn push(&mut self, item: String)
        ensures
            final(self)@ == old(self)@.push(item@),
    {
        self.stack.push(item);
        assert(self@ =~= old(self)@.push(item@));
    }

    /// Removes every occurrence of `item`.
    pub fn pop_item(&mut self, item: &str)
        ensures
            final(self)@ == without_item(old(self)@, item@),
    {
        let ghost s = self@;
        let wanted: String = item.to_owned();
        let mut kept: Vec<String> = Vec::new();
        let mut i: usize = 0;
        while i < self.stack.len()
            invariant
                s == self@,
                wanted@ == item@,
                i <= self.stack@.len(),
                kept@.map_values(|x: String| x@) == without_item(s.subrange(0, i as int), item@),
            decreases self.stack@.len() - i,
        {
            assert(s.subrange(0, i + 1).drop_last() =~= s.subrange(0, i as int));
            assert(s.subrange(0, i + 1).last() == self.stack@[i as int]@);
            if self.stack[i] != wanted {
                let ghost before = kept@;
                kept.push(self.stack[i].clone());
                assert(kept@.map_values(|x: String| x@) =~= before.map_values(|x: String| x@).push(
                    self.stack@[i as int]@,
                ));
            }
            i = i + 1;
        }
        assert(s.subrange(0, s.len() as int) =~= s);
        self.stack = kept;
    }

    /// Whether `item` is on the stack.
    pub fn contains(&mut self, item: &String) -> (r: bool)
        ensures
            final(self)@ == old(self)@,
            r == old(self)@.contains(item@),
    {
        let mut i: usize = 0;
        while i < self.stack.len()
            invariant
                i <= self@.len(),
                forall|k: int| 0 <= k < i ==> #[trigger] self@[k] != item@,
            decreases self.stack@.len() - i,
        {
            if self.stack[i] == *item {
                assert(self@[i as int] == item@);
                return true;
            }
            i = i + 1;
        }
        false
    }

    /// Moves `item` to the top.
    pub fn bring_to_front(&mut self, item: &str)
        ensures
            final(self)@ == without_item(old(self)@, item@).push(item@),
    {
        self.pop_item(item);
        self.push(item.to_owned());
    }

    /// Moves `item` to the bottom.
    pub fn send_to_back(&mut self, item: &str)
        ensures
            final(self)@ == seq![item@] + without_item(old(self)@, item@),
    {
        self.pop_item(item);
        let ghost s = self@;
        self.stack.insert(0, item.to_owned());
        assert(self@ =~= seq![item@] + s);
    }

    pub fn len(&self) -> (r: usize)
        ensures
            r == self@.len(),
    {
        self.stack.len()
    }

    pub fn is_empty(&self) -> (r: bool)
        ensures
            r == (self@.len() == 0),
    {
        self.stack.len() == 0
    }
}

} // verus!
