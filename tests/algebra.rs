use std::marker::PhantomData;

use nemo::peano::{S, Z};
use nemo::session_types::{Accept, Choose, End, Escape, Finally, Nest, Recv, Send, SessionType};

fn same<T>(_: PhantomData<T>, _: PhantomData<T>) {}

type Dual<T> = <T as SessionType>::Dual;

#[test]
fn duality_is_involutive_on_types() {
    type Linear = Send<usize, Recv<usize, End>>;
    type Looping = Nest<Recv<usize, Nest<Send<usize, Escape<S<Z>>>>>>;
    type Branching = Choose<Send<String, End>, Choose<Recv<usize, Escape<Z>>, Finally<End>>>;

    same(PhantomData::<Dual<Linear>>, PhantomData::<Recv<usize, Send<usize, End>>>);
    same(PhantomData::<Dual<Dual<Linear>>>, PhantomData::<Linear>);
    same(PhantomData::<Dual<Dual<Looping>>>, PhantomData::<Looping>);
    same(
        PhantomData::<Dual<Branching>>,
        PhantomData::<Accept<Recv<String, End>, Accept<Send<usize, Escape<Z>>, Finally<End>>>>,
    );
    same(PhantomData::<Dual<Dual<Branching>>>, PhantomData::<Branching>);
}

#[test]
fn escape_is_self_dual() {
    same(PhantomData::<Dual<Escape<S<S<Z>>>>>, PhantomData::<Escape<S<S<Z>>>>);
    same(PhantomData::<Dual<End>>, PhantomData::<End>);
}
