//! Convolution kernels: weights that are symmetric around a centre, packed
//! behind their own sum.

use vstd::prelude::*;

verus! {

/// The largest radius whose kernel size still fits in 32 bits.
pub const MAX_KERNEL_RADIUS: u32 = 0x7fff_ffff;

/// A convolution kernel over weights of type `W`: the weights in order, and
/// their sum, which a convolution that is clipped at the border of the image
/// renormalises with.
pub struct Kernel<W> {
    pub sum: W,
    pub values: Vec<W>,
}

/// Whether `partials` are the sums that adding up `values` from `zero` with
/// `plus` goes through, from the first to the last: `zero`, then one more
/// value added at each step.
pub open spec fn is_running_sum<W, A: Fn(W, W) -> W>(
    plus: A,
    zero: W,
    values: Seq<W>,
    partials: Seq<W>,
) -> bool {
    &&& partials.len() == values.len() + 1
    &&& partials[0] == zero
    &&& forall|i: int|
        #![trigger partials[i]]
        0 <= i < values.len() ==> call_ensures(plus, (partials[i], values[i]), partials[i + 1])
}

/// Whether `sum` is what adding up `values` from `zero` with `plus` gives,
/// from the first to the last.
pub open spec fn sums_to<W, A: Fn(W, W) -> W>(plus: A, zero: W, values: Seq<W>, sum: W) -> bool {
    exists|partials: Seq<W>|
        #![trigger is_running_sum(plus, zero, values, partials)]
        is_running_sum(plus, zero, values, partials) && partials.last() == sum
}

/// Number of weights of a kernel that reaches `radius` to either side of its
/// centre.
pub open spec fn spec_kernel_size(radius: int) -> int {
    2 * radius + 1
}

/// Number of weights of a kernel that reaches `radius` to either side of its
/// centre.
pub fn kernel_size(radius: u32) -> (size: u32)
    requires
        radius <= MAX_KERNEL_RADIUS,
    ensures
        size == spec_kernel_size(radius as int),
{
    2 * radius + 1
}

impl<W: Copy> Kernel<W> {
    /// How far the kernel reaches to either side of its centre.
    pub open spec fn radius(self) -> int {
        (self.values@.len() - 1) / 2
    }

    /// The weight that lies `distance` after the centre.
    pub open spec fn after(self, distance: int) -> W {
        self.values@[self.radius() + distance]
    }

    /// The weight that lies `distance` before the centre.
    pub open spec fn before(self, distance: int) -> W {
        self.values@[self.radius() - distance]
    }

    /// Whether the weights read the same from either end.
    pub open spec fn is_symmetric(self) -> bool {
        forall|i: int|
            0 <= i < self.values@.len() ==> #[trigger] self.values@[i] == self.values@[self.values@.len()
                - 1 - i]
    }

    /// The values that the kernel is packed into: its sum, then its weights.
    pub open spec fn packed(self) -> Seq<W> {
        seq![self.sum] + self.values@
    }

    /// The kernel of the weights `values`, with their sum: `values` added
    /// up from `zero` with `plus`, first to last.
    pub fn new<A: Fn(W, W) -> W>(values: Vec<W>, zero: W, plus: A) -> (kernel: Kernel<W>)
        requires
            forall|a: W, b: W| call_requires(plus, (a, b)),
        ensures
            kernel.values@ == values@,
            sums_to(plus, zero, values@, kernel.sum),
    {
        let mut sum = zero;
        let mut index: usize = 0;
        let ghost mut partials: Seq<W> = seq![zero];
        while index < values.len()
            invariant
                index <= values@.len(),
                forall|a: W, b: W| call_requires(plus, (a, b)),
                is_running_sum(plus, zero, values@.take(index as int), partials),
                partials.last() == sum,
            decreases values@.len() - index,
        {
            sum = plus(sum, values[index]);
            proof {
                partials = partials.push(sum);
            }
            index += 1;
        }
        assert(values@.take(values@.len() as int) =~= values@);
        Kernel { sum, values }
    }

    /// The kernel as it is handed to the device: its sum, then its weights.
    pub fn packed_data(&self) -> (data: Vec<W>)
        ensures
            data@ == self.packed(),
    {
        let mut data: Vec<W> = Vec::new();
        data.push(self.sum);
        let mut index: usize = 0;
        while index < self.values.len()
            invariant
                index <= self.values@.len(),
                data@ == seq![self.sum] + self.values@.take(index as int),
            decreases self.values@.len() - index,
        {
            data.push(self.values[index]);
            index += 1;
            assert(data@ =~= seq![self.sum] + self.values@.take(index as int));
        }
        assert(self.values@.take(self.values@.len() as int) =~= self.values@);
        data
    }

    /// Number of weights.
    pub fn size(&self) -> (size: usize)
        ensures
            size == self.values@.len(),
    {
        self.values.len()
    }
}

/// The kernel that reaches `radius` to either side of its centre and whose
/// weight at a distance from the centre, before it or after it, is what
/// `weight` gives for that distance; with the sum of the weights, added up
/// from `zero` with `plus`.
pub fn create_kernel<W: Copy, F: Fn(u32) -> W, A: Fn(W, W) -> W>(
    radius: u32,
    weight: F,
    zero: W,
    plus: A,
) -> (kernel: Kernel<W>)
    requires
        radius <= MAX_KERNEL_RADIUS,
        forall|distance: u32| distance <= radius ==> call_requires(weight, (distance,)),
        forall|a: W, b: W| call_requires(plus, (a, b)),
    ensures
        kernel.values@.len() == spec_kernel_size(radius as int),
        kernel.radius() == radius,
        forall|distance: int|
            0 <= distance <= radius ==> call_ensures(
                weight,
                (distance as u32,),
                #[trigger] kernel.after(distance),
            ),
        forall|distance: int|
            0 <= distance <= radius ==> #[trigger] kernel.before(distance) == kernel.after(
                distance,
            ),
        kernel.is_symmetric(),
        sums_to(plus, zero, kernel.values@, kernel.sum),
{
    let size: u32 = kernel_size(radius);
    let mut values: Vec<W> = vec![zero; size as usize];
    let kernel_radius: usize = (size as usize - 1) / 2;
    let mut index: usize = 0;
    while index <= kernel_radius
        invariant
            kernel_radius == radius,
            radius <= MAX_KERNEL_RADIUS,
            values@.len() == 2 * radius + 1,
            index <= kernel_radius + 1,
            forall|distance: u32| distance <= radius ==> call_requires(weight, (distance,)),
            forall|distance: int|
                0 <= distance < index ==> call_ensures(
                    weight,
                    (distance as u32,),
                    #[trigger] values@[kernel_radius + distance],
                ),
            forall|distance: int|
                0 <= distance < index ==> #[trigger] values@[kernel_radius - distance]
                    == values@[kernel_radius + distance],
        decreases kernel_radius + 1 - index,
    {
        let value = weight(index as u32);
        values.set(kernel_radius + index, value);
        values.set(kernel_radius - index, value);
        index += 1;
    }
    let kernel = Kernel::new(values, zero, plus);
    proof {
        assert(kernel.radius() == radius);
        assert forall|distance: int| 0 <= distance <= radius implies call_ensures(
            weight,
            (distance as u32,),
            #[trigger] kernel.after(distance),
        ) by {
            assert(kernel.after(distance) == values@[kernel_radius + distance]);
        }
        assert forall|distance: int| 0 <= distance <= radius implies #[trigger] kernel.before(
            distance,
        ) == kernel.after(distance) by {
            assert(kernel.before(distance) == values@[kernel_radius - distance]);
            assert(kernel.after(distance) == values@[kernel_radius + distance]);
        }
        lemma_mirrored_is_symmetric(kernel);
    }
    kernel
}

/// A kernel of odd size whose weights before the centre equal those at the
/// same distance after it reads the same from either end.
pub proof fn lemma_mirrored_is_symmetric<W: Copy>(kernel: Kernel<W>)
    requires
        kernel.values@.len() == spec_kernel_size(kernel.radius()),
        forall|distance: int|
            0 <= distance <= kernel.radius() ==> #[trigger] kernel.before(distance)
                == kernel.after(distance),
    ensures
        kernel.is_symmetric(),
{
    let radius = kernel.radius();
    let size = kernel.values@.len() as int;
    assert forall|i: int| 0 <= i < size implies #[trigger] kernel.values@[i] == kernel.values@[size
        - 1 - i] by {
        if i <= radius {
            let distance = radius - i;
            assert(kernel.before(distance) == kernel.after(distance));
        } else {
            let distance = i - radius;
            assert(kernel.before(distance) == kernel.after(distance));
        }
    }
}

} // verus!
