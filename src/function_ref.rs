use vstd::prelude::*;
use crate::arg_count::ArgCount;

verus! {

/// Which argument slots of a frame are reference cells (bit set) and which hold
/// owned copies. Slots past the width of the mask follow its last bit.
#[derive(Clone, Copy, Debug, PartialEq, Eq, Structural)]
pub struct StackLayout(pub u128);

proof fn lemma_bit_of_full(i: u128)
    requires
        i < 128,
    ensures
        (u128::MAX & (1u128 << i)) != 0,
{
    assert((u128::MAX & (1u128 << i)) != 0) by (bit_vector)
        requires
            i < 128,
    ;
}

proof fn lemma_bit_of_empty(i: u128)
    requires
        i < 128,
    ensures
        (0u128 & (1u128 << i)) == 0,
{
    assert((0u128 & (1u128 << i)) == 0) by (bit_vector);
}

proof fn lemma_bit_set(x: u128, s: u128, i: u128)
    requires
        s < 128,
        i < 128,
    ensures
        ((x | (1u128 << s)) & (1u128 << i) != 0) == (i == s || (x & (1u128 << i) != 0)),
{
    assert(((x | (1u128 << s)) & (1u128 << i) != 0) == (i == s || (x & (1u128 << i) != 0))) by (bit_vector)
        requires
            s < 128,
            i < 128,
    ;
}

proof fn lemma_bit_clear(x: u128, s: u128, i: u128)
    requires
        s < 128,
        i < 128,
    ensures
        ((x & !(1u128 << s)) & (1u128 << i) != 0) == (i != s && (x & (1u128 << i) != 0)),
{
    assert(((x & !(1u128 << s)) & (1u128 << i) != 0) == (i != s && (x & (1u128 << i) != 0))) by (bit_vector)
        requires
            s < 128,
            i < 128,
    ;
}

impl StackLayout {
    pub open spec fn spec_is_alloc(self, slot: int) -> bool {
        if slot >= 128 {
            (self.0 & (1u128 << 127u128)) != 0
        } else {
            (self.0 & (1u128 << (slot as u128))) != 0
        }
    }

    pub fn all_alloc() -> (r: StackLayout)
        ensures
            forall|i: int| 0 <= i ==> #[trigger] r.spec_is_alloc(i),
    {
        let r = StackLayout(u128::MAX);
        assert forall|i: int| 0 <= i implies #[trigger] r.spec_is_alloc(i) by {
            if i < 128 {
                lemma_bit_of_full(i as u128);
            } else {
                lemma_bit_of_full(127);
            }
        }
        r
    }

    pub fn no_alloc() -> (r: StackLayout)
        ensures
            forall|i: int| 0 <= i ==> !#[trigger] r.spec_is_alloc(i),
    {
        let r = StackLayout(0);
        assert forall|i: int| 0 <= i implies !#[trigger] r.spec_is_alloc(i) by {
            if i < 128 {
                lemma_bit_of_empty(i as u128);
            } else {
                lemma_bit_of_empty(127);
            }
        }
        r
    }

    pub fn set_alloc(&mut self, slot: usize)
        requires
            slot < 128,
        ensures
            final(self).spec_is_alloc(slot as int),
            forall|i: int| 0 <= i && i != slot && !(slot == 127 && i >= 128) ==> #[trigger] final(self).spec_is_alloc(i) == old(self).spec_is_alloc(i),
            slot == 127 ==> forall|i: int| i >= 128 ==> #[trigger] final(self).spec_is_alloc(i) == final(self).spec_is_alloc(127),
    {
        let x = self.0;
        let s = slot as u128;
        self.0 = x | (1u128 << s);
        proof {
            lemma_bit_set(x, s, s);
        }
        assert forall|i: int| 0 <= i && i != slot && !(slot == 127 && i >= 128) implies #[trigger] self.spec_is_alloc(i) == old(self).spec_is_alloc(i) by {
            if i < 128 {
                lemma_bit_set(x, s, i as u128);
            } else {
                lemma_bit_set(x, s, 127);
            }
        }
    }

    pub fn set_stack(&mut self, slot: usize)
        requires
            slot < 128,
        ensures
            !final(self).spec_is_alloc(slot as int),
            forall|i: int| 0 <= i && i != slot && !(slot == 127 && i >= 128) ==> #[trigger] final(self).spec_is_alloc(i) == old(self).spec_is_alloc(i),
            slot == 127 ==> forall|i: int| i >= 128 ==> #[trigger] final(self).spec_is_alloc(i) == final(self).spec_is_alloc(127),
    {
        let x = self.0;
        let s = slot as u128;
        self.0 = x & !(1u128 << s);
        proof {
            lemma_bit_clear(x, s, s);
        }
        assert forall|i: int| 0 <= i && i != slot && !(slot == 127 && i >= 128) implies #[trigger] self.spec_is_alloc(i) == old(self).spec_is_alloc(i) by {
            if i < 128 {
                lemma_bit_clear(x, s, i as u128);
            } else {
                lemma_bit_clear(x, s, 127);
            }
        }
    }

    pub fn is_alloc(&self, slot: usize) -> (r: bool)
        ensures
            r == self.spec_is_alloc(slot as int),
    {
        if slot >= 128 {
            (self.0 & (1u128 << 127u128)) != 0
        } else {
            (self.0 & (1u128 << (slot as u128))) != 0
        }
    }
}

/// A host function, called with the engine's context and a slice of owned values.
#[derive(Clone, Copy, Debug, PartialEq, Eq, Structural)]
pub struct NativeFunction<N>(pub N);

impl<N> NativeFunction<N> {
    pub fn new(value: N) -> (r: NativeFunction<N>)
        ensures
            r.0 == value,
    {
        NativeFunction(value)
    }
}

/// How a function reference is invoked.
#[derive(Clone, Copy, Debug, PartialEq, Eq, Structural)]
pub enum FunctionType<N> {
    /// A plain function with no captured environment.
    Static,
    /// A closure template: its capture sites are stored with the function body, and
    /// it must be materialized before it can be called.
    CapturingDef,
    /// A materialized closure; the number names its environment of captured cells.
    CapturingRef(usize),
    /// A host function.
    Native(NativeFunction<N>),
}

/// A callable handle: arity, frame size, the function it names and how to call it.
#[derive(Clone, Copy, Debug)]
pub struct FunctionRef<N> {
    pub arg_count: ArgCount,
    pub stack_size: usize,
    pub location: usize,
    pub function_type: FunctionType<N>,
    pub layout: StackLayout,
}

impl<N> FunctionRef<N> {
    /// A reference to a host function; its frame holds exactly its argument slots,
    /// all of them owned copies.
    pub fn new_native(id: usize, func: NativeFunction<N>, arg_count: ArgCount) -> (r: Self)
        requires
            arg_count.spec_stack_size() <= usize::MAX,
        ensures
            r.arg_count == arg_count,
            r.location == id,
            r.stack_size == arg_count.spec_stack_size(),
            r.function_type == FunctionType::Native(func),
            forall|i: int| 0 <= i ==> !#[trigger] r.layout.spec_is_alloc(i),
    {
        FunctionRef {
            arg_count,
            location: id,
            stack_size: arg_count.stack_size(),
            function_type: FunctionType::Native(func),
            layout: StackLayout::no_alloc(),
        }
    }

    pub fn arg_count(&self) -> (r: ArgCount)
        ensures
            r == self.arg_count,
    {
        self.arg_count
    }

    pub fn stack_size(&self) -> (r: usize)
        ensures
            r == self.stack_size,
    {
        self.stack_size
    }

    pub fn address(&self) -> (r: usize)
        ensures
            r == self.location,
    {
        self.location
    }

    /// Two references are equal when they name the same entry and are both host
    /// functions or both not.
    pub open spec fn same_function(self, other: Self) -> bool {
        &&& self.location == other.location
        &&& (self.function_type is Native) == (other.function_type is Native)
    }
}

impl<N> PartialEq for FunctionRef<N> {
    fn eq(&self, other: &Self) -> (r: bool)
        ensures
            r == self.same_function(*other),
    {
        let a = match self.function_type {
            FunctionType::Native(_) => true,
            _ => false,
        };
        let b = match other.function_type {
            FunctionType::Native(_) => true,
            _ => false,
        };
        self.location == other.location && a == b
    }
}

impl<N> vstd::std_specs::cmp::PartialEqSpecImpl for FunctionRef<N> {
    open spec fn obeys_eq_spec() -> bool {
        true
    }

    open spec fn eq_spec(&self, other: &Self) -> bool {
        self.same_function(*other)
    }
}

} // verus!
