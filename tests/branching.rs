use nemo::session_types::{Chooser, Choose, End, Finally, Recv};

#[test]
fn check_choose_works() {
    type GetUsize = Recv<usize, End>;
    type GetU8 = Recv<u8, End>;
    type GetString = Recv<String, End>;
    type Getisize = Recv<isize, End>;

    type Proto = Choose<Getisize, Choose<GetString, Choose<GetU8, Finally<GetUsize>>>>;

    assert_eq!(<Proto as Chooser<Getisize, _>>::num(), 0);
    assert_eq!(<Proto as Chooser<GetString, _>>::num(), 1);
    assert_eq!(<Proto as Chooser<GetU8, _>>::num(), 2);
    assert_eq!(<Proto as Chooser<GetUsize, _>>::num(), 3);
}

#[test]
fn chooser_single_final_branch() {
    type Only = Finally<Recv<u64, End>>;
    assert_eq!(<Only as Chooser<Recv<u64, End>, _>>::num(), 0);
}
