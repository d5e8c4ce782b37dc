use vstd::prelude::*;

verus! {

fn take_order() {
}

fn serve_order() {
}

fn take_payment() {
}

} // verus!
