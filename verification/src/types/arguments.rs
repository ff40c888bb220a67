//! The arguments of a call, given as a tuple of handles.

use vstd::prelude::*;
use crate::handle::Handle;
use crate::raw::Local;
use crate::types::function::{args_of, args_push, raws_of, ArgsVec};
use crate::types::Value;

verus! {

/// The trait for specifying arguments in a [`Call`](crate::types::Call) or
/// [`FunctionCall`](crate::types::FunctionCall): a tuple of up to 32 handles,
/// each of a type of its own.
pub trait Arguments: Sized {
    /// The raw handles of the arguments, first to last.
    spec fn raws(self) -> Seq<Local>;

    /// Appends the arguments, first to last, to what `args` holds.
    fn append(self, args: &mut ArgsVec)
        ensures
            raws_of(args_of(*final(args))) == raws_of(args_of(*old(args))) + self.raws(),
    ;
}

impl Arguments for () {
    open spec fn raws(self) -> Seq<Local> {
        Seq::empty()
    }

    fn append(self, args: &mut ArgsVec) {
        proof {
            assert(raws_of(args_of(*args)) =~= raws_of(args_of(*args)) + Seq::<Local>::empty());
        }
    }
}

impl<V1: Value> Arguments for (Handle<V1>,) {
    open spec fn raws(self) -> Seq<Local> {
        seq![
            self.0.raw(),
        ]
    }

    fn append(self, args: &mut ArgsVec) {
        let (v1,) = self;
        args_push(args, v1.upcast());
        proof {
            assert(raws_of(args_of(*args)) =~= raws_of(args_of(*old(args))) + self.raws());
        }
    }
}

impl<V1: Value, V2: Value> Arguments for (Handle<V1>, Handle<V2>) {
    open spec fn raws(self) -> Seq<Local> {
        seq![
            self.0.raw(),
            self.1.raw(),
        ]
    }

    fn append(self, args: &mut ArgsVec) {
        let (v1, v2) = self;
        args_push(args, v1.upcast());
        args_push(args, v2.upcast());
        proof {
            assert(raws_of(args_of(*args)) =~= raws_of(args_of(*old(args))) + self.raws());
        }
    }
}

impl<V1: Value, V2: Value, V3: Value> Arguments for (Handle<V1>, Handle<V2>, Handle<V3>) {
    open spec fn raws(self) -> Seq<Local> {
        seq![
            self.0.raw(),
            self.1.raw(),
            self.2.raw(),
        ]
    }

    fn append(self, args: &mut ArgsVec) {
        let (v1, v2, v3) = self;
        args_push(args, v1.upcast());
        args_push(args, v2.upcast());
        args_push(args, v3.upcast());
        proof {
            assert(raws_of(args_of(*args)) =~= raws_of(args_of(*old(args))) + self.raws());
        }
    }
}

impl<V1: Value, V2: Value, V3: Value, V4: Value> Arguments for (
        Handle<V1>,
        Handle<V2>,
        Handle<V3>,
        Handle<V4>,
    ) {
    open spec fn raws(self) -> Seq<Local> {
        seq![
            self.0.raw(),
            self.1.raw(),
            self.2.raw(),
            self.3.raw(),
        ]
    }

    fn append(self, args: &mut ArgsVec) {
        let (v1, v2, v3, v4) = self;
        args_push(args, v1.upcast());
        args_push(args, v2.upcast());
        args_push(args, v3.upcast());
        args_push(args, v4.upcast());
        proof {
            assert(raws_of(args_of(*args)) =~= raws_of(args_of(*old(args))) + self.raws());
        }
    }
}

impl<V1: Value, V2: Value, V3: Value, V4: Value, V5: Value> Arguments for (
        Handle<V1>,
        Handle<V2>,
        Handle<V3>,
        Handle<V4>,
        Handle<V5>,
    ) {
    open spec fn raws(self) -> Seq<Local> {
        seq![
            self.0.raw(),
            self.1.raw(),
            self.2.raw(),
            self.3.raw(),
            self.4.raw(),
        ]
    }

    fn append(self, args: &mut ArgsVec) {
        let (v1, v2, v3, v4, v5) = self;
        args_push(args, v1.upcast());
        args_push(args, v2.upcast());
        args_push(args, v3.upcast());
        args_push(args, v4.upcast());
        args_push(args, v5.upcast());
        proof {
            assert(raws_of(args_of(*args)) =~= raws_of(args_of(*old(args))) + self.raws());
        }
    }
}

impl<V1: Value, V2: Value, V3: Value, V4: Value, V5: Value, V6: Value> Arguments for (
        Handle<V1>,
        Handle<V2>,
        Handle<V3>,
        Handle<V4>,
        Handle<V5>,
        Handle<V6>,
    ) {
    open spec fn raws(self) -> Seq<Local> {
        seq![
            self.0.raw(),
            self.1.raw(),
            self.2.raw(),
            self.3.raw(),
            self.4.raw(),
            self.5.raw(),
        ]
    }

    fn append(self, args: &mut ArgsVec) {
        let (v1, v2, v3, v4, v5, v6) = self;
        args_push(args, v1.upcast());
        args_push(args, v2.upcast());
        args_push(args, v3.upcast());
        args_push(args, v4.upcast());
        args_push(args, v5.upcast());
        args_push(args, v6.upcast());
        proof {
            assert(raws_of(args_of(*args)) =~= raws_of(args_of(*old(args))) + self.raws());
        }
    }
}

impl<V1: Value, V2: Value, V3: Value, V4: Value, V5: Value, V6: Value, V7: Value> Arguments for (
        Handle<V1>,
        Handle<V2>,
        Handle<V3>,
        Handle<V4>,
        Handle<V5>,
        Handle<V6>,
        Handle<V7>,
    ) {
    open spec fn raws(self) -> Seq<Local> {
        seq![
            self.0.raw(),
            self.1.raw(),
            self.2.raw(),
            self.3.raw(),
            self.4.raw(),
            self.5.raw(),
            self.6.raw(),
        ]
    }

    fn append(self, args: &mut ArgsVec) {
        let (v1, v2, v3, v4, v5, v6, v7) = self;
        args_push(args, v1.upcast());
        args_push(args, v2.upcast());
        args_push(args, v3.upcast());
        args_push(args, v4.upcast());
        args_push(args, v5.upcast());
        args_push(args, v6.upcast());
        args_push(args, v7.upcast());
        proof {
            assert(raws_of(args_of(*args)) =~= raws_of(args_of(*old(args))) + self.raws());
        }
    }
}

impl<V1: Value, V2: Value, V3: Value, V4: Value, V5: Value, V6: Value, V7: Value, V8: Value> Arguments for (
        Handle<V1>,
        Handle<V2>,
        Handle<V3>,
        Handle<V4>,
        Handle<V5>,
        Handle<V6>,
        Handle<V7>,
        Handle<V8>,
    ) {
    open spec fn raws(self) -> Seq<Local> {
        seq![
            self.0.raw(),
            self.1.raw(),
            self.2.raw(),
            self.3.raw(),
            self.4.raw(),
            self.5.raw(),
            self.6.raw(),
            self.7.raw(),
        ]
    }

    fn append(self, args: &mut ArgsVec) {
        let (v1, v2, v3, v4, v5, v6, v7, v8) = self;
        args_push(args, v1.upcast());
        args_push(args, v2.upcast());
        args_push(args, v3.upcast());
        args_push(args, v4.upcast());
        args_push(args, v5.upcast());
        args_push(args, v6.upcast());
        args_push(args, v7.upcast());
        args_push(args, v8.upcast());
        proof {
            assert(raws_of(args_of(*args)) =~= raws_of(args_of(*old(args))) + self.raws());
        }
    }
}

impl<V1: Value, V2: Value, V3: Value, V4: Value, V5: Value, V6: Value, V7: Value, V8: Value, V9: Value> Arguments for (
        Handle<V1>,
        Handle<V2>,
        Handle<V3>,
        Handle<V4>,
        Handle<V5>,
        Handle<V6>,
        Handle<V7>,
        Handle<V8>,
        Handle<V9>,
    ) {
    open spec fn raws(self) -> Seq<Local> {
        seq![
            self.0.raw(),
            self.1.raw(),
            self.2.raw(),
            self.3.raw(),
            self.4.raw(),
            self.5.raw(),
            self.6.raw(),
            self.7.raw(),
            self.8.raw(),
        ]
    }

    fn append(self, args: &mut ArgsVec) {
        let (v1, v2, v3, v4, v5, v6, v7, v8, v9) = self;
        args_push(args, v1.upcast());
        args_push(args, v2.upcast());
        args_push(args, v3.upcast());
        args_push(args, v4.upcast());
        args_push(args, v5.upcast());
        args_push(args, v6.upcast());
        args_push(args, v7.upcast());
        args_push(args, v8.upcast());
        args_push(args, v9.upcast());
        proof {
            assert(raws_of(args_of(*args)) =~= raws_of(args_of(*old(args))) + self.raws());
        }
    }
}

impl<V1: Value, V2: Value, V3: Value, V4: Value, V5: Value, V6: Value, V7: Value, V8: Value, V9: Value, V10: Value> Arguments for (
        Handle<V1>,
        Handle<V2>,
        Handle<V3>,
        Handle<V4>,
        Handle<V5>,
        Handle<V6>,
        Handle<V7>,
        Handle<V8>,
        Handle<V9>,
        Handle<V10>,
    ) {
    open spec fn raws(self) -> Seq<Local> {
        seq![
            self.0.raw(),
            self.1.raw(),
            self.2.raw(),
            self.3.raw(),
            self.4.raw(),
            self.5.raw(),
            self.6.raw(),
            self.7.raw(),
            self.8.raw(),
            self.9.raw(),
        ]
    }

    fn append(self, args: &mut ArgsVec) {
        let (v1, v2, v3, v4, v5, v6, v7, v8, v9, v10) = self;
        args_push(args, v1.upcast());
        args_push(args, v2.upcast());
        args_push(args, v3.upcast());
        args_push(args, v4.upcast());
        args_push(args, v5.upcast());
        args_push(args, v6.upcast());
        args_push(args, v7.upcast());
        args_push(args, v8.upcast());
        args_push(args, v9.upcast());
        args_push(args, v10.upcast());
        proof {
            assert(raws_of(args_of(*args)) =~= raws_of(args_of(*old(args))) + self.raws());
        }
    }
}

impl<V1: Value, V2: Value, V3: Value, V4: Value, V5: Value, V6: Value, V7: Value, V8: Value, V9: Value, V10: Value, V11: Value> Arguments for (
        Handle<V1>,
        Handle<V2>,
        Handle<V3>,
        Handle<V4>,
        Handle<V5>,
        Handle<V6>,
        Handle<V7>,
        Handle<V8>,
        Handle<V9>,
        Handle<V10>,
        Handle<V11>,
    ) {
    open spec fn raws(self) -> Seq<Local> {
        seq![
            self.0.raw(),
            self.1.raw(),
            self.2.raw(),
            self.3.raw(),
            self.4.raw(),
            self.5.raw(),
            self.6.raw(),
            self.7.raw(),
            self.8.raw(),
            self.9.raw(),
            self.10.raw(),
        ]
    }

    fn append(self, args: &mut ArgsVec) {
        let (v1, v2, v3, v4, v5, v6, v7, v8, v9, v10, v11) = self;
        args_push(args, v1.upcast());
        args_push(args, v2.upcast());
        args_push(args, v3.upcast());
        args_push(args, v4.upcast());
        args_push(args, v5.upcast());
        args_push(args, v6.upcast());
        args_push(args, v7.upcast());
        args_push(args, v8.upcast());
        args_push(args, v9.upcast());
        args_push(args, v10.upcast());
        args_push(args, v11.upcast());
        proof {
            assert(raws_of(args_of(*args)) =~= raws_of(args_of(*old(args))) + self.raws());
        }
    }
}

impl<V1: Value, V2: Value, V3: Value, V4: Value, V5: Value, V6: Value, V7: Value, V8: Value, V9: Value, V10: Value, V11: Value, V12: Value> Arguments for (
        Handle<V1>,
        Handle<V2>,
        Handle<V3>,
        Handle<V4>,
        Handle<V5>,
        Handle<V6>,
        Handle<V7>,
        Handle<V8>,
        Handle<V9>,
        Handle<V10>,
        Handle<V11>,
        Handle<V12>,
    ) {
    open spec fn raws(self) -> Seq<Local> {
        seq![
            self.0.raw(),
            self.1.raw(),
            self.2.raw(),
            self.3.raw(),
            self.4.raw(),
            self.5.raw(),
            self.6.raw(),
            self.7.raw(),
            self.8.raw(),
            self.9.raw(),
            self.10.raw(),
            self.11.raw(),
        ]
    }

    fn append(self, args: &mut ArgsVec) {
        let (v1, v2, v3, v4, v5, v6, v7, v8, v9, v10, v11, v12) = self;
        args_push(args, v1.upcast());
        args_push(args, v2.upcast());
        args_push(args, v3.upcast());
        args_push(args, v4.upcast());
        args_push(args, v5.upcast());
        args_push(args, v6.upcast());
        args_push(args, v7.upcast());
        args_push(args, v8.upcast());
        args_push(args, v9.upcast());
        args_push(args, v10.upcast());
        args_push(args, v11.upcast());
        args_push(args, v12.upcast());
        proof {
            assert(raws_of(args_of(*args)) =~= raws_of(args_of(*old(args))) + self.raws());
        }
    }
}

impl<V1: Value, V2: Value, V3: Value, V4: Value, V5: Value, V6: Value, V7: Value, V8: Value, V9: Value, V10: Value, V11: Value, V12: Value, V13: Value> Arguments for (
        Handle<V1>,
        Handle<V2>,
        Handle<V3>,
        Handle<V4>,
        Handle<V5>,
        Handle<V6>,
        Handle<V7>,
        Handle<V8>,
        Handle<V9>,
        Handle<V10>,
        Handle<V11>,
        Handle<V12>,
        Handle<V13>,
    ) {
    open spec fn raws(self) -> Seq<Local> {
        seq![
            self.0.raw(),
            self.1.raw(),
            self.2.raw(),
            self.3.raw(),
            self.4.raw(),
            self.5.raw(),
            self.6.raw(),
            self.7.raw(),
            self.8.raw(),
            self.9.raw(),
            self.10.raw(),
            self.11.raw(),
            self.12.raw(),
        ]
    }

    fn append(self, args: &mut ArgsVec) {
        let (v1, v2, v3, v4, v5, v6, v7, v8, v9, v10, v11, v12, v13) = self;
        args_push(args, v1.upcast());
        args_push(args, v2.upcast());
        args_push(args, v3.upcast());
        args_push(args, v4.upcast());
        args_push(args, v5.upcast());
        args_push(args, v6.upcast());
        args_push(args, v7.upcast());
        args_push(args, v8.upcast());
        args_push(args, v9.upcast());
        args_push(args, v10.upcast());
        args_push(args, v11.upcast());
        args_push(args, v12.upcast());
        args_push(args, v13.upcast());
        proof {
            assert(raws_of(args_of(*args)) =~= raws_of(args_of(*old(args))) + self.raws());
        }
    }
}

impl<V1: Value, V2: Value, V3: Value, V4: Value, V5: Value, V6: Value, V7: Value, V8: Value, V9: Value, V10: Value, V11: Value, V12: Value, V13: Value, V14: Value> Arguments for (
        Handle<V1>,
        Handle<V2>,
        Handle<V3>,
        Handle<V4>,
        Handle<V5>,
        Handle<V6>,
        Handle<V7>,
        Handle<V8>,
        Handle<V9>,
        Handle<V10>,
        Handle<V11>,
        Handle<V12>,
        Handle<V13>,
        Handle<V14>,
    ) {
    open spec fn raws(self) -> Seq<Local> {
        seq![
            self.0.raw(),
            self.1.raw(),
            self.2.raw(),
            self.3.raw(),
            self.4.raw(),
            self.5.raw(),
            self.6.raw(),
            self.7.raw(),
            self.8.raw(),
            self.9.raw(),
            self.10.raw(),
            self.11.raw(),
            self.12.raw(),
            self.13.raw(),
        ]
    }

    fn append(self, args: &mut ArgsVec) {
        let (v1, v2, v3, v4, v5, v6, v7, v8, v9, v10, v11, v12, v13, v14) = self;
        args_push(args, v1.upcast());
        args_push(args, v2.upcast());
        args_push(args, v3.upcast());
        args_push(args, v4.upcast());
        args_push(args, v5.upcast());
        args_push(args, v6.upcast());
        args_push(args, v7.upcast());
        args_push(args, v8.upcast());
        args_push(args, v9.upcast());
        args_push(args, v10.upcast());
        args_push(args, v11.upcast());
        args_push(args, v12.upcast());
        args_push(args, v13.upcast());
        args_push(args, v14.upcast());
        proof {
            assert(raws_of(args_of(*args)) =~= raws_of(args_of(*old(args))) + self.raws());
        }
    }
}

impl<V1: Value, V2: Value, V3: Value, V4: Value, V5: Value, V6: Value, V7: Value, V8: Value, V9: Value, V10: Value, V11: Value, V12: Value, V13: Value, V14: Value, V15: Value> Arguments for (
        Handle<V1>,
        Handle<V2>,
        Handle<V3>,
        Handle<V4>,
        Handle<V5>,
        Handle<V6>,
        Handle<V7>,
        Handle<V8>,
        Handle<V9>,
        Handle<V10>,
        Handle<V11>,
        Handle<V12>,
        Handle<V13>,
        Handle<V14>,
        Handle<V15>,
    ) {
    open spec fn raws(self) -> Seq<Local> {
        seq![
            self.0.raw(),
            self.1.raw(),
            self.2.raw(),
            self.3.raw(),
            self.4.raw(),
            self.5.raw(),
            self.6.raw(),
            self.7.raw(),
            self.8.raw(),
            self.9.raw(),
            self.10.raw(),
            self.11.raw(),
            self.12.raw(),
            self.13.raw(),
            self.14.raw(),
        ]
    }

    fn append(self, args: &mut ArgsVec) {
        let (v1, v2, v3, v4, v5, v6, v7, v8, v9, v10, v11, v12, v13, v14, v15) = self;
        args_push(args, v1.upcast());
        args_push(args, v2.upcast());
        args_push(args, v3.upcast());
        args_push(args, v4.upcast());
        args_push(args, v5.upcast());
        args_push(args, v6.upcast());
        args_push(args, v7.upcast());
        args_push(args, v8.upcast());
        args_push(args, v9.upcast());
        args_push(args, v10.upcast());
        args_push(args, v11.upcast());
        args_push(args, v12.upcast());
        args_push(args, v13.upcast());
        args_push(args, v14.upcast());
        args_push(args, v15.upcast());
        proof {
            assert(raws_of(args_of(*args)) =~= raws_of(args_of(*old(args))) + self.raws());
        }
    }
}

impl<V1: Value, V2: Value, V3: Value, V4: Value, V5: Value, V6: Value, V7: Value, V8: Value, V9: Value, V10: Value, V11: Value, V12: Value, V13: Value, V14: Value, V15: Value, V16: Value> Arguments for (
        Handle<V1>,
        Handle<V2>,
        Handle<V3>,
        Handle<V4>,
        Handle<V5>,
        Handle<V6>,
        Handle<V7>,
        Handle<V8>,
        Handle<V9>,
        Handle<V10>,
        Handle<V11>,
        Handle<V12>,
        Handle<V13>,
        Handle<V14>,
        Handle<V15>,
        Handle<V16>,
    ) {
    open spec fn raws(self) -> Seq<Local> {
        seq![
            self.0.raw(),
            self.1.raw(),
            self.2.raw(),
            self.3.raw(),
            self.4.raw(),
            self.5.raw(),
            self.6.raw(),
            self.7.raw(),
            self.8.raw(),
            self.9.raw(),
            self.10.raw(),
            self.11.raw(),
            self.12.raw(),
            self.13.raw(),
            self.14.raw(),
            self.15.raw(),
        ]
    }

    fn append(self, args: &mut ArgsVec) {
        let (v1, v2, v3, v4, v5, v6, v7, v8, v9, v10, v11, v12, v13, v14, v15, v16) = self;
        args_push(args, v1.upcast());
        args_push(args, v2.upcast());
        args_push(args, v3.upcast());
        args_push(args, v4.upcast());
        args_push(args, v5.upcast());
        args_push(args, v6.upcast());
        args_push(args, v7.upcast());
        args_push(args, v8.upcast());
        args_push(args, v9.upcast());
        args_push(args, v10.upcast());
        args_push(args, v11.upcast());
        args_push(args, v12.upcast());
        args_push(args, v13.upcast());
        args_push(args, v14.upcast());
        args_push(args, v15.upcast());
        args_push(args, v16.upcast());
        proof {
            assert(raws_of(args_of(*args)) =~= raws_of(args_of(*old(args))) + self.raws());
        }
    }
}

impl<V1: Value, V2: Value, V3: Value, V4: Value, V5: Value, V6: Value, V7: Value, V8: Value, V9: Value, V10: Value, V11: Value, V12: Value, V13: Value, V14: Value, V15: Value, V16: Value, V17: Value> Arguments for (
        Handle<V1>,
        Handle<V2>,
        Handle<V3>,
        Handle<V4>,
        Handle<V5>,
        Handle<V6>,
        Handle<V7>,
        Handle<V8>,
        Handle<V9>,
        Handle<V10>,
        Handle<V11>,
        Handle<V12>,
        Handle<V13>,
        Handle<V14>,
        Handle<V15>,
        Handle<V16>,
        Handle<V17>,
    ) {
    open spec fn raws(self) -> Seq<Local> {
        seq![
            self.0.raw(),
            self.1.raw(),
            self.2.raw(),
            self.3.raw(),
            self.4.raw(),
            self.5.raw(),
            self.6.raw(),
            self.7.raw(),
            self.8.raw(),
            self.9.raw(),
            self.10.raw(),
            self.11.raw(),
            self.12.raw(),
            self.13.raw(),
            self.14.raw(),
            self.15.raw(),
            self.16.raw(),
        ]
    }

    fn append(self, args: &mut ArgsVec) {
        let (v1, v2, v3, v4, v5, v6, v7, v8, v9, v10, v11, v12, v13, v14, v15, v16, v17) = self;
        args_push(args, v1.upcast());
        args_push(args, v2.upcast());
        args_push(args, v3.upcast());
        args_push(args, v4.upcast());
        args_push(args, v5.upcast());
        args_push(args, v6.upcast());
        args_push(args, v7.upcast());
        args_push(args, v8.upcast());
        args_push(args, v9.upcast());
        args_push(args, v10.upcast());
        args_push(args, v11.upcast());
        args_push(args, v12.upcast());
        args_push(args, v13.upcast());
        args_push(args, v14.upcast());
        args_push(args, v15.upcast());
        args_push(args, v16.upcast());
        args_push(args, v17.upcast());
        proof {
            assert(raws_of(args_of(*args)) =~= raws_of(args_of(*old(args))) + self.raws());
        }
    }
}

impl<V1: Value, V2: Value, V3: Value, V4: Value, V5: Value, V6: Value, V7: Value, V8: Value, V9: Value, V10: Value, V11: Value, V12: Value, V13: Value, V14: Value, V15: Value, V16: Value, V17: Value, V18: Value> Arguments for (
        Handle<V1>,
        Handle<V2>,
        Handle<V3>,
        Handle<V4>,
        Handle<V5>,
        Handle<V6>,
        Handle<V7>,
        Handle<V8>,
        Handle<V9>,
        Handle<V10>,
        Handle<V11>,
        Handle<V12>,
        Handle<V13>,
        Handle<V14>,
        Handle<V15>,
        Handle<V16>,
        Handle<V17>,
        Handle<V18>,
    ) {
    open spec fn raws(self) -> Seq<Local> {
        seq![
            self.0.raw(),
            self.1.raw(),
            self.2.raw(),
            self.3.raw(),
            self.4.raw(),
            self.5.raw(),
            self.6.raw(),
            self.7.raw(),
            self.8.raw(),
            self.9.raw(),
            self.10.raw(),
            self.11.raw(),
            self.12.raw(),
            self.13.raw(),
            self.14.raw(),
            self.15.raw(),
            self.16.raw(),
            self.17.raw(),
        ]
    }

    fn append(self, args: &mut ArgsVec) {
        let (v1, v2, v3, v4, v5, v6, v7, v8, v9, v10, v11, v12, v13, v14, v15, v16, v17, v18) = self;
        args_push(args, v1.upcast());
        args_push(args, v2.upcast());
        args_push(args, v3.upcast());
        args_push(args, v4.upcast());
        args_push(args, v5.upcast());
        args_push(args, v6.upcast());
        args_push(args, v7.upcast());
        args_push(args, v8.upcast());
        args_push(args, v9.upcast());
        args_push(args, v10.upcast());
        args_push(args, v11.upcast());
        args_push(args, v12.upcast());
        args_push(args, v13.upcast());
        args_push(args, v14.upcast());
        args_push(args, v15.upcast());
        args_push(args, v16.upcast());
        args_push(args, v17.upcast());
        args_push(args, v18.upcast());
        proof {
            assert(raws_of(args_of(*args)) =~= raws_of(args_of(*old(args))) + self.raws());
        }
    }
}

impl<V1: Value, V2: Value, V3: Value, V4: Value, V5: Value, V6: Value, V7: Value, V8: Value, V9: Value, V10: Value, V11: Value, V12: Value, V13: Value, V14: Value, V15: Value, V16: Value, V17: Value, V18: Value, V19: Value> Arguments for (
        Handle<V1>,
        Handle<V2>,
        Handle<V3>,
        Handle<V4>,
        Handle<V5>,
        Handle<V6>,
        Handle<V7>,
        Handle<V8>,
        Handle<V9>,
        Handle<V10>,
        Handle<V11>,
        Handle<V12>,
        Handle<V13>,
        Handle<V14>,
        Handle<V15>,
        Handle<V16>,
        Handle<V17>,
        Handle<V18>,
        Handle<V19>,
    ) {
    open spec fn raws(self) -> Seq<Local> {
        seq![
            self.0.raw(),
            self.1.raw(),
            self.2.raw(),
            self.3.raw(),
            self.4.raw(),
            self.5.raw(),
            self.6.raw(),
            self.7.raw(),
            self.8.raw(),
            self.9.raw(),
            self.10.raw(),
            self.11.raw(),
            self.12.raw(),
            self.13.raw(),
            self.14.raw(),
            self.15.raw(),
            self.16.raw(),
            self.17.raw(),
            self.18.raw(),
        ]
    }

    fn append(self, args: &mut ArgsVec) {
        let (v1, v2, v3, v4, v5, v6, v7, v8, v9, v10, v11, v12, v13, v14, v15, v16, v17, v18, v19) = self;
        args_push(args, v1.upcast());
        args_push(args, v2.upcast());
        args_push(args, v3.upcast());
        args_push(args, v4.upcast());
        args_push(args, v5.upcast());
        args_push(args, v6.upcast());
        args_push(args, v7.upcast());
        args_push(args, v8.upcast());
        args_push(args, v9.upcast());
        args_push(args, v10.upcast());
        args_push(args, v11.upcast());
        args_push(args, v12.upcast());
        args_push(args, v13.upcast());
        args_push(args, v14.upcast());
        args_push(args, v15.upcast());
        args_push(args, v16.upcast());
        args_push(args, v17.upcast());
        args_push(args, v18.upcast());
        args_push(args, v19.upcast());
        proof {
            assert(raws_of(args_of(*args)) =~= raws_of(args_of(*old(args))) + self.raws());
        }
    }
}

impl<V1: Value, V2: Value, V3: Value, V4: Value, V5: Value, V6: Value, V7: Value, V8: Value, V9: Value, V10: Value, V11: Value, V12: Value, V13: Value, V14: Value, V15: Value, V16: Value, V17: Value, V18: Value, V19: Value, V20: Value> Arguments for (
        Handle<V1>,
        Handle<V2>,
        Handle<V3>,
        Handle<V4>,
        Handle<V5>,
        Handle<V6>,
        Handle<V7>,
        Handle<V8>,
        Handle<V9>,
        Handle<V10>,
        Handle<V11>,
        Handle<V12>,
        Handle<V13>,
        Handle<V14>,
        Handle<V15>,
        Handle<V16>,
        Handle<V17>,
        Handle<V18>,
        Handle<V19>,
        Handle<V20>,
    ) {
    open spec fn raws(self) -> Seq<Local> {
        seq![
            self.0.raw(),
            self.1.raw(),
            self.2.raw(),
            self.3.raw(),
            self.4.raw(),
            self.5.raw(),
            self.6.raw(),
            self.7.raw(),
            self.8.raw(),
            self.9.raw(),
            self.10.raw(),
            self.11.raw(),
            self.12.raw(),
            self.13.raw(),
            self.14.raw(),
            self.15.raw(),
            self.16.raw(),
            self.17.raw(),
            self.18.raw(),
            self.19.raw(),
        ]
    }

    fn append(self, args: &mut ArgsVec) {
        let (v1, v2, v3, v4, v5, v6, v7, v8, v9, v10, v11, v12, v13, v14, v15, v16, v17, v18, v19, v20) = self;
        args_push(args, v1.upcast());
        args_push(args, v2.upcast());
        args_push(args, v3.upcast());
        args_push(args, v4.upcast());
        args_push(args, v5.upcast());
        args_push(args, v6.upcast());
        args_push(args, v7.upcast());
        args_push(args, v8.upcast());
        args_push(args, v9.upcast());
        args_push(args, v10.upcast());
        args_push(args, v11.upcast());
        args_push(args, v12.upcast());
        args_push(args, v13.upcast());
        args_push(args, v14.upcast());
        args_push(args, v15.upcast());
        args_push(args, v16.upcast());
        args_push(args, v17.upcast());
        args_push(args, v18.upcast());
        args_push(args, v19.upcast());
        args_push(args, v20.upcast());
        proof {
            assert(raws_of(args_of(*args)) =~= raws_of(args_of(*old(args))) + self.raws());
        }
    }
}

impl<V1: Value, V2: Value, V3: Value, V4: Value, V5: Value, V6: Value, V7: Value, V8: Value, V9: Value, V10: Value, V11: Value, V12: Value, V13: Value, V14: Value, V15: Value, V16: Value, V17: Value, V18: Value, V19: Value, V20: Value, V21: Value> Arguments for (
        Handle<V1>,
        Handle<V2>,
        Handle<V3>,
        Handle<V4>,
        Handle<V5>,
        Handle<V6>,
        Handle<V7>,
        Handle<V8>,
        Handle<V9>,
        Handle<V10>,
        Handle<V11>,
        Handle<V12>,
        Handle<V13>,
        Handle<V14>,
        Handle<V15>,
        Handle<V16>,
        Handle<V17>,
        Handle<V18>,
        Handle<V19>,
        Handle<V20>,
        Handle<V21>,
    ) {
    open spec fn raws(self) -> Seq<Local> {
        seq![
            self.0.raw(),
            self.1.raw(),
            self.2.raw(),
            self.3.raw(),
            self.4.raw(),
            self.5.raw(),
            self.6.raw(),
            self.7.raw(),
            self.8.raw(),
            self.9.raw(),
            self.10.raw(),
            self.11.raw(),
            self.12.raw(),
            self.13.raw(),
            self.14.raw(),
            self.15.raw(),
            self.16.raw(),
            self.17.raw(),
            self.18.raw(),
            self.19.raw(),
            self.20.raw(),
        ]
    }

    fn append(self, args: &mut ArgsVec) {
        let (v1, v2, v3, v4, v5, v6, v7, v8, v9, v10, v11, v12, v13, v14, v15, v16, v17, v18, v19, v20, v21) = self;
        args_push(args, v1.upcast());
        args_push(args, v2.upcast());
        args_push(args, v3.upcast());
        args_push(args, v4.upcast());
        args_push(args, v5.upcast());
        args_push(args, v6.upcast());
        args_push(args, v7.upcast());
        args_push(args, v8.upcast());
        args_push(args, v9.upcast());
        args_push(args, v10.upcast());
        args_push(args, v11.upcast());
        args_push(args, v12.upcast());
        args_push(args, v13.upcast());
        args_push(args, v14.upcast());
        args_push(args, v15.upcast());
        args_push(args, v16.upcast());
        args_push(args, v17.upcast());
        args_push(args, v18.upcast());
        args_push(args, v19.upcast());
        args_push(args, v20.upcast());
        args_push(args, v21.upcast());
        proof {
            assert(raws_of(args_of(*args)) =~= raws_of(args_of(*old(args))) + self.raws());
        }
    }
}

impl<V1: Value, V2: Value, V3: Value, V4: Value, V5: Value, V6: Value, V7: Value, V8: Value, V9: Value, V10: Value, V11: Value, V12: Value, V13: Value, V14: Value, V15: Value, V16: Value, V17: Value, V18: Value, V19: Value, V20: Value, V21: Value, V22: Value> Arguments for (
        Handle<V1>,
        Handle<V2>,
        Handle<V3>,
        Handle<V4>,
        Handle<V5>,
        Handle<V6>,
        Handle<V7>,
        Handle<V8>,
        Handle<V9>,
        Handle<V10>,
        Handle<V11>,
        Handle<V12>,
        Handle<V13>,
        Handle<V14>,
        Handle<V15>,
        Handle<V16>,
        Handle<V17>,
        Handle<V18>,
        Handle<V19>,
        Handle<V20>,
        Handle<V21>,
        Handle<V22>,
    ) {
    open spec fn raws(self) -> Seq<Local> {
        seq![
            self.0.raw(),
            self.1.raw(),
            self.2.raw(),
            self.3.raw(),
            self.4.raw(),
            self.5.raw(),
            self.6.raw(),
            self.7.raw(),
            self.8.raw(),
            self.9.raw(),
            self.10.raw(),
            self.11.raw(),
            self.12.raw(),
            self.13.raw(),
            self.14.raw(),
            self.15.raw(),
            self.16.raw(),
            self.17.raw(),
            self.18.raw(),
            self.19.raw(),
            self.20.raw(),
            self.21.raw(),
        ]
    }

    fn append(self, args: &mut ArgsVec) {
        let (v1, v2, v3, v4, v5, v6, v7, v8, v9, v10, v11, v12, v13, v14, v15, v16, v17, v18, v19, v20, v21, v22) = self;
        args_push(args, v1.upcast());
        args_push(args, v2.upcast());
        args_push(args, v3.upcast());
        args_push(args, v4.upcast());
        args_push(args, v5.upcast());
        args_push(args, v6.upcast());
        args_push(args, v7.upcast());
        args_push(args, v8.upcast());
        args_push(args, v9.upcast());
        args_push(args, v10.upcast());
        args_push(args, v11.upcast());
        args_push(args, v12.upcast());
        args_push(args, v13.upcast());
        args_push(args, v14.upcast());
        args_push(args, v15.upcast());
        args_push(args, v16.upcast());
        args_push(args, v17.upcast());
        args_push(args, v18.upcast());
        args_push(args, v19.upcast());
        args_push(args, v20.upcast());
        args_push(args, v21.upcast());
        args_push(args, v22.upcast());
        proof {
            assert(raws_of(args_of(*args)) =~= raws_of(args_of(*old(args))) + self.raws());
        }
    }
}

impl<V1: Value, V2: Value, V3: Value, V4: Value, V5: Value, V6: Value, V7: Value, V8: Value, V9: Value, V10: Value, V11: Value, V12: Value, V13: Value, V14: Value, V15: Value, V16: Value, V17: Value, V18: Value, V19: Value, V20: Value, V21: Value, V22: Value, V23: Value> Arguments for (
        Handle<V1>,
        Handle<V2>,
        Handle<V3>,
        Handle<V4>,
        Handle<V5>,
        Handle<V6>,
        Handle<V7>,
        Handle<V8>,
        Handle<V9>,
        Handle<V10>,
        Handle<V11>,
        Handle<V12>,
        Handle<V13>,
        Handle<V14>,
        Handle<V15>,
        Handle<V16>,
        Handle<V17>,
        Handle<V18>,
        Handle<V19>,
        Handle<V20>,
        Handle<V21>,
        Handle<V22>,
        Handle<V23>,
    ) {
    open spec fn raws(self) -> Seq<Local> {
        seq![
            self.0.raw(),
            self.1.raw(),
            self.2.raw(),
            self.3.raw(),
            self.4.raw(),
            self.5.raw(),
            self.6.raw(),
            self.7.raw(),
            self.8.raw(),
            self.9.raw(),
            self.10.raw(),
            self.11.raw(),
            self.12.raw(),
            self.13.raw(),
            self.14.raw(),
            self.15.raw(),
            self.16.raw(),
            self.17.raw(),
            self.18.raw(),
            self.19.raw(),
            self.20.raw(),
            self.21.raw(),
            self.22.raw(),
        ]
    }

    fn append(self, args: &mut ArgsVec) {
        let (v1, v2, v3, v4, v5, v6, v7, v8, v9, v10, v11, v12, v13, v14, v15, v16, v17, v18, v19, v20, v21, v22, v23) = self;
        args_push(args, v1.upcast());
        args_push(args, v2.upcast());
        args_push(args, v3.upcast());
        args_push(args, v4.upcast());
        args_push(args, v5.upcast());
        args_push(args, v6.upcast());
        args_push(args, v7.upcast());
        args_push(args, v8.upcast());
        args_push(args, v9.upcast());
        args_push(args, v10.upcast());
        args_push(args, v11.upcast());
        args_push(args, v12.upcast());
        args_push(args, v13.upcast());
        args_push(args, v14.upcast());
        args_push(args, v15.upcast());
        args_push(args, v16.upcast());
        args_push(args, v17.upcast());
        args_push(args, v18.upcast());
        args_push(args, v19.upcast());
        args_push(args, v20.upcast());
        args_push(args, v21.upcast());
        args_push(args, v22.upcast());
        args_push(args, v23.upcast());
        proof {
            assert(raws_of(args_of(*args)) =~= raws_of(args_of(*old(args))) + self.raws());
        }
    }
}

impl<V1: Value, V2: Value, V3: Value, V4: Value, V5: Value, V6: Value, V7: Value, V8: Value, V9: Value, V10: Value, V11: Value, V12: Value, V13: Value, V14: Value, V15: Value, V16: Value, V17: Value, V18: Value, V19: Value, V20: Value, V21: Value, V22: Value, V23: Value, V24: Value> Arguments for (
        Handle<V1>,
        Handle<V2>,
        Handle<V3>,
        Handle<V4>,
        Handle<V5>,
        Handle<V6>,
        Handle<V7>,
        Handle<V8>,
        Handle<V9>,
        Handle<V10>,
        Handle<V11>,
        Handle<V12>,
        Handle<V13>,
        Handle<V14>,
        Handle<V15>,
        Handle<V16>,
        Handle<V17>,
        Handle<V18>,
        Handle<V19>,
        Handle<V20>,
        Handle<V21>,
        Handle<V22>,
        Handle<V23>,
        Handle<V24>,
    ) {
    open spec fn raws(self) -> Seq<Local> {
        seq![
            self.0.raw(),
            self.1.raw(),
            self.2.raw(),
            self.3.raw(),
            self.4.raw(),
            self.5.raw(),
            self.6.raw(),
            self.7.raw(),
            self.8.raw(),
            self.9.raw(),
            self.10.raw(),
            self.11.raw(),
            self.12.raw(),
            self.13.raw(),
            self.14.raw(),
            self.15.raw(),
            self.16.raw(),
            self.17.raw(),
            self.18.raw(),
            self.19.raw(),
            self.20.raw(),
            self.21.raw(),
            self.22.raw(),
            self.23.raw(),
        ]
    }

    fn append(self, args: &mut ArgsVec) {
        let (v1, v2, v3, v4, v5, v6, v7, v8, v9, v10, v11, v12, v13, v14, v15, v16, v17, v18, v19, v20, v21, v22, v23, v24) = self;
        args_push(args, v1.upcast());
        args_push(args, v2.upcast());
        args_push(args, v3.upcast());
        args_push(args, v4.upcast());
        args_push(args, v5.upcast());
        args_push(args, v6.upcast());
        args_push(args, v7.upcast());
        args_push(args, v8.upcast());
        args_push(args, v9.upcast());
        args_push(args, v10.upcast());
        args_push(args, v11.upcast());
        args_push(args, v12.upcast());
        args_push(args, v13.upcast());
        args_push(args, v14.upcast());
        args_push(args, v15.upcast());
        args_push(args, v16.upcast());
        args_push(args, v17.upcast());
        args_push(args, v18.upcast());
        args_push(args, v19.upcast());
        args_push(args, v20.upcast());
        args_push(args, v21.upcast());
        args_push(args, v22.upcast());
        args_push(args, v23.upcast());
        args_push(args, v24.upcast());
        proof {
            assert(raws_of(args_of(*args)) =~= raws_of(args_of(*old(args))) + self.raws());
        }
    }
}

impl<V1: Value, V2: Value, V3: Value, V4: Value, V5: Value, V6: Value, V7: Value, V8: Value, V9: Value, V10: Value, V11: Value, V12: Value, V13: Value, V14: Value, V15: Value, V16: Value, V17: Value, V18: Value, V19: Value, V20: Value, V21: Value, V22: Value, V23: Value, V24: Value, V25: Value> Arguments for (
        Handle<V1>,
        Handle<V2>,
        Handle<V3>,
        Handle<V4>,
        Handle<V5>,
        Handle<V6>,
        Handle<V7>,
        Handle<V8>,
        Handle<V9>,
        Handle<V10>,
        Handle<V11>,
        Handle<V12>,
        Handle<V13>,
        Handle<V14>,
        Handle<V15>,
        Handle<V16>,
        Handle<V17>,
        Handle<V18>,
        Handle<V19>,
        Handle<V20>,
        Handle<V21>,
        Handle<V22>,
        Handle<V23>,
        Handle<V24>,
        Handle<V25>,
    ) {
    open spec fn raws(self) -> Seq<Local> {
        seq![
            self.0.raw(),
            self.1.raw(),
            self.2.raw(),
            self.3.raw(),
            self.4.raw(),
            self.5.raw(),
            self.6.raw(),
            self.7.raw(),
            self.8.raw(),
            self.9.raw(),
            self.10.raw(),
            self.11.raw(),
            self.12.raw(),
            self.13.raw(),
            self.14.raw(),
            self.15.raw(),
            self.16.raw(),
            self.17.raw(),
            self.18.raw(),
            self.19.raw(),
            self.20.raw(),
            self.21.raw(),
            self.22.raw(),
            self.23.raw(),
            self.24.raw(),
        ]
    }

    fn append(self, args: &mut ArgsVec) {
        let (v1, v2, v3, v4, v5, v6, v7, v8, v9, v10, v11, v12, v13, v14, v15, v16, v17, v18, v19, v20, v21, v22, v23, v24, v25) = self;
        args_push(args, v1.upcast());
        args_push(args, v2.upcast());
        args_push(args, v3.upcast());
        args_push(args, v4.upcast());
        args_push(args, v5.upcast());
        args_push(args, v6.upcast());
        args_push(args, v7.upcast());
        args_push(args, v8.upcast());
        args_push(args, v9.upcast());
        args_push(args, v10.upcast());
        args_push(args, v11.upcast());
        args_push(args, v12.upcast());
        args_push(args, v13.upcast());
        args_push(args, v14.upcast());
        args_push(args, v15.upcast());
        args_push(args, v16.upcast());
        args_push(args, v17.upcast());
        args_push(args, v18.upcast());
        args_push(args, v19.upcast());
        args_push(args, v20.upcast());
        args_push(args, v21.upcast());
        args_push(args, v22.upcast());
        args_push(args, v23.upcast());
        args_push(args, v24.upcast());
        args_push(args, v25.upcast());
        proof {
            assert(raws_of(args_of(*args)) =~= raws_of(args_of(*old(args))) + self.raws());
        }
    }
}

impl<V1: Value, V2: Value, V3: Value, V4: Value, V5: Value, V6: Value, V7: Value, V8: Value, V9: Value, V10: Value, V11: Value, V12: Value, V13: Value, V14: Value, V15: Value, V16: Value, V17: Value, V18: Value, V19: Value, V20: Value, V21: Value, V22: Value, V23: Value, V24: Value, V25: Value, V26: Value> Arguments for (
        Handle<V1>,
        Handle<V2>,
        Handle<V3>,
        Handle<V4>,
        Handle<V5>,
        Handle<V6>,
        Handle<V7>,
        Handle<V8>,
        Handle<V9>,
        Handle<V10>,
        Handle<V11>,
        Handle<V12>,
        Handle<V13>,
        Handle<V14>,
        Handle<V15>,
        Handle<V16>,
        Handle<V17>,
        Handle<V18>,
        Handle<V19>,
        Handle<V20>,
        Handle<V21>,
        Handle<V22>,
        Handle<V23>,
        Handle<V24>,
        Handle<V25>,
        Handle<V26>,
    ) {
    open spec fn raws(self) -> Seq<Local> {
        seq![
            self.0.raw(),
            self.1.raw(),
            self.2.raw(),
            self.3.raw(),
            self.4.raw(),
            self.5.raw(),
            self.6.raw(),
            self.7.raw(),
            self.8.raw(),
            self.9.raw(),
            self.10.raw(),
            self.11.raw(),
            self.12.raw(),
            self.13.raw(),
            self.14.raw(),
            self.15.raw(),
            self.16.raw(),
            self.17.raw(),
            self.18.raw(),
            self.19.raw(),
            self.20.raw(),
            self.21.raw(),
            self.22.raw(),
            self.23.raw(),
            self.24.raw(),
            self.25.raw(),
        ]
    }

    fn append(self, args: &mut ArgsVec) {
        let (v1, v2, v3, v4, v5, v6, v7, v8, v9, v10, v11, v12, v13, v14, v15, v16, v17, v18, v19, v20, v21, v22, v23, v24, v25, v26) = self;
        args_push(args, v1.upcast());
        args_push(args, v2.upcast());
        args_push(args, v3.upcast());
        args_push(args, v4.upcast());
        args_push(args, v5.upcast());
        args_push(args, v6.upcast());
        args_push(args, v7.upcast());
        args_push(args, v8.upcast());
        args_push(args, v9.upcast());
        args_push(args, v10.upcast());
        args_push(args, v11.upcast());
        args_push(args, v12.upcast());
        args_push(args, v13.upcast());
        args_push(args, v14.upcast());
        args_push(args, v15.upcast());
        args_push(args, v16.upcast());
        args_push(args, v17.upcast());
        args_push(args, v18.upcast());
        args_push(args, v19.upcast());
        args_push(args, v20.upcast());
        args_push(args, v21.upcast());
        args_push(args, v22.upcast());
        args_push(args, v23.upcast());
        args_push(args, v24.upcast());
        args_push(args, v25.upcast());
        args_push(args, v26.upcast());
        proof {
            assert(raws_of(args_of(*args)) =~= raws_of(args_of(*old(args))) + self.raws());
        }
    }
}

impl<V1: Value, V2: Value, V3: Value, V4: Value, V5: Value, V6: Value, V7: Value, V8: Value, V9: Value, V10: Value, V11: Value, V12: Value, V13: Value, V14: Value, V15: Value, V16: Value, V17: Value, V18: Value, V19: Value, V20: Value, V21: Value, V22: Value, V23: Value, V24: Value, V25: Value, V26: Value, V27: Value> Arguments for (
        Handle<V1>,
        Handle<V2>,
        Handle<V3>,
        Handle<V4>,
        Handle<V5>,
        Handle<V6>,
        Handle<V7>,
        Handle<V8>,
        Handle<V9>,
        Handle<V10>,
        Handle<V11>,
        Handle<V12>,
        Handle<V13>,
        Handle<V14>,
        Handle<V15>,
        Handle<V16>,
        Handle<V17>,
        Handle<V18>,
        Handle<V19>,
        Handle<V20>,
        Handle<V21>,
        Handle<V22>,
        Handle<V23>,
        Handle<V24>,
        Handle<V25>,
        Handle<V26>,
        Handle<V27>,
    ) {
    open spec fn raws(self) -> Seq<Local> {
        seq![
            self.0.raw(),
            self.1.raw(),
            self.2.raw(),
            self.3.raw(),
            self.4.raw(),
            self.5.raw(),
            self.6.raw(),
            self.7.raw(),
            self.8.raw(),
            self.9.raw(),
            self.10.raw(),
            self.11.raw(),
            self.12.raw(),
            self.13.raw(),
            self.14.raw(),
            self.15.raw(),
            self.16.raw(),
            self.17.raw(),
            self.18.raw(),
            self.19.raw(),
            self.20.raw(),
            self.21.raw(),
            self.22.raw(),
            self.23.raw(),
            self.24.raw(),
            self.25.raw(),
            self.26.raw(),
        ]
    }

    fn append(self, args: &mut ArgsVec) {
        let (v1, v2, v3, v4, v5, v6, v7, v8, v9, v10, v11, v12, v13, v14, v15, v16, v17, v18, v19, v20, v21, v22, v23, v24, v25, v26, v27) = self;
        args_push(args, v1.upcast());
        args_push(args, v2.upcast());
        args_push(args, v3.upcast());
        args_push(args, v4.upcast());
        args_push(args, v5.upcast());
        args_push(args, v6.upcast());
        args_push(args, v7.upcast());
        args_push(args, v8.upcast());
        args_push(args, v9.upcast());
        args_push(args, v10.upcast());
        args_push(args, v11.upcast());
        args_push(args, v12.upcast());
        args_push(args, v13.upcast());
        args_push(args, v14.upcast());
        args_push(args, v15.upcast());
        args_push(args, v16.upcast());
        args_push(args, v17.upcast());
        args_push(args, v18.upcast());
        args_push(args, v19.upcast());
        args_push(args, v20.upcast());
        args_push(args, v21.upcast());
        args_push(args, v22.upcast());
        args_push(args, v23.upcast());
        args_push(args, v24.upcast());
        args_push(args, v25.upcast());
        args_push(args, v26.upcast());
        args_push(args, v27.upcast());
        proof {
            assert(raws_of(args_of(*args)) =~= raws_of(args_of(*old(args))) + self.raws());
        }
    }
}

impl<V1: Value, V2: Value, V3: Value, V4: Value, V5: Value, V6: Value, V7: Value, V8: Value, V9: Value, V10: Value, V11: Value, V12: Value, V13: Value, V14: Value, V15: Value, V16: Value, V17: Value, V18: Value, V19: Value, V20: Value, V21: Value, V22: Value, V23: Value, V24: Value, V25: Value, V26: Value, V27: Value, V28: Value> Arguments for (
        Handle<V1>,
        Handle<V2>,
        Handle<V3>,
        Handle<V4>,
        Handle<V5>,
        Handle<V6>,
        Handle<V7>,
        Handle<V8>,
        Handle<V9>,
        Handle<V10>,
        Handle<V11>,
        Handle<V12>,
        Handle<V13>,
        Handle<V14>,
        Handle<V15>,
        Handle<V16>,
        Handle<V17>,
        Handle<V18>,
        Handle<V19>,
        Handle<V20>,
        Handle<V21>,
        Handle<V22>,
        Handle<V23>,
        Handle<V24>,
        Handle<V25>,
        Handle<V26>,
        Handle<V27>,
        Handle<V28>,
    ) {
    open spec fn raws(self) -> Seq<Local> {
        seq![
            self.0.raw(),
            self.1.raw(),
            self.2.raw(),
            self.3.raw(),
            self.4.raw(),
            self.5.raw(),
            self.6.raw(),
            self.7.raw(),
            self.8.raw(),
            self.9.raw(),
            self.10.raw(),
            self.11.raw(),
            self.12.raw(),
            self.13.raw(),
            self.14.raw(),
            self.15.raw(),
            self.16.raw(),
            self.17.raw(),
            self.18.raw(),
            self.19.raw(),
            self.20.raw(),
            self.21.raw(),
            self.22.raw(),
            self.23.raw(),
            self.24.raw(),
            self.25.raw(),
            self.26.raw(),
            self.27.raw(),
        ]
    }

    fn append(self, args: &mut ArgsVec) {
        let (v1, v2, v3, v4, v5, v6, v7, v8, v9, v10, v11, v12, v13, v14, v15, v16, v17, v18, v19, v20, v21, v22, v23, v24, v25, v26, v27, v28) = self;
        args_push(args, v1.upcast());
        args_push(args, v2.upcast());
        args_push(args, v3.upcast());
        args_push(args, v4.upcast());
        args_push(args, v5.upcast());
        args_push(args, v6.upcast());
        args_push(args, v7.upcast());
        args_push(args, v8.upcast());
        args_push(args, v9.upcast());
        args_push(args, v10.upcast());
        args_push(args, v11.upcast());
        args_push(args, v12.upcast());
        args_push(args, v13.upcast());
        args_push(args, v14.upcast());
        args_push(args, v15.upcast());
        args_push(args, v16.upcast());
        args_push(args, v17.upcast());
        args_push(args, v18.upcast());
        args_push(args, v19.upcast());
        args_push(args, v20.upcast());
        args_push(args, v21.upcast());
        args_push(args, v22.upcast());
        args_push(args, v23.upcast());
        args_push(args, v24.upcast());
        args_push(args, v25.upcast());
        args_push(args, v26.upcast());
        args_push(args, v27.upcast());
        args_push(args, v28.upcast());
        proof {
            assert(raws_of(args_of(*args)) =~= raws_of(args_of(*old(args))) + self.raws());
        }
    }
}

impl<V1: Value, V2: Value, V3: Value, V4: Value, V5: Value, V6: Value, V7: Value, V8: Value, V9: Value, V10: Value, V11: Value, V12: Value, V13: Value, V14: Value, V15: Value, V16: Value, V17: Value, V18: Value, V19: Value, V20: Value, V21: Value, V22: Value, V23: Value, V24: Value, V25: Value, V26: Value, V27: Value, V28: Value, V29: Value> Arguments for (
        Handle<V1>,
        Handle<V2>,
        Handle<V3>,
        Handle<V4>,
        Handle<V5>,
        Handle<V6>,
        Handle<V7>,
        Handle<V8>,
        Handle<V9>,
        Handle<V10>,
        Handle<V11>,
        Handle<V12>,
        Handle<V13>,
        Handle<V14>,
        Handle<V15>,
        Handle<V16>,
        Handle<V17>,
        Handle<V18>,
        Handle<V19>,
        Handle<V20>,
        Handle<V21>,
        Handle<V22>,
        Handle<V23>,
        Handle<V24>,
        Handle<V25>,
        Handle<V26>,
        Handle<V27>,
        Handle<V28>,
        Handle<V29>,
    ) {
    open spec fn raws(self) -> Seq<Local> {
        seq![
            self.0.raw(),
            self.1.raw(),
            self.2.raw(),
            self.3.raw(),
            self.4.raw(),
            self.5.raw(),
            self.6.raw(),
            self.7.raw(),
            self.8.raw(),
            self.9.raw(),
            self.10.raw(),
            self.11.raw(),
            self.12.raw(),
            self.13.raw(),
            self.14.raw(),
            self.15.raw(),
            self.16.raw(),
            self.17.raw(),
            self.18.raw(),
            self.19.raw(),
            self.20.raw(),
            self.21.raw(),
            self.22.raw(),
            self.23.raw(),
            self.24.raw(),
            self.25.raw(),
            self.26.raw(),
            self.27.raw(),
            self.28.raw(),
        ]
    }

    fn append(self, args: &mut ArgsVec) {
        let (v1, v2, v3, v4, v5, v6, v7, v8, v9, v10, v11, v12, v13, v14, v15, v16, v17, v18, v19, v20, v21, v22, v23, v24, v25, v26, v27, v28, v29) = self;
        args_push(args, v1.upcast());
        args_push(args, v2.upcast());
        args_push(args, v3.upcast());
        args_push(args, v4.upcast());
        args_push(args, v5.upcast());
        args_push(args, v6.upcast());
        args_push(args, v7.upcast());
        args_push(args, v8.upcast());
        args_push(args, v9.upcast());
        args_push(args, v10.upcast());
        args_push(args, v11.upcast());
        args_push(args, v12.upcast());
        args_push(args, v13.upcast());
        args_push(args, v14.upcast());
        args_push(args, v15.upcast());
        args_push(args, v16.upcast());
        args_push(args, v17.upcast());
        args_push(args, v18.upcast());
        args_push(args, v19.upcast());
        args_push(args, v20.upcast());
        args_push(args, v21.upcast());
        args_push(args, v22.upcast());
        args_push(args, v23.upcast());
        args_push(args, v24.upcast());
        args_push(args, v25.upcast());
        args_push(args, v26.upcast());
        args_push(args, v27.upcast());
        args_push(args, v28.upcast());
        args_push(args, v29.upcast());
        proof {
            assert(raws_of(args_of(*args)) =~= raws_of(args_of(*old(args))) + self.raws());
        }
    }
}

impl<V1: Value, V2: Value, V3: Value, V4: Value, V5: Value, V6: Value, V7: Value, V8: Value, V9: Value, V10: Value, V11: Value, V12: Value, V13: Value, V14: Value, V15: Value, V16: Value, V17: Value, V18: Value, V19: Value, V20: Value, V21: Value, V22: Value, V23: Value, V24: Value, V25: Value, V26: Value, V27: Value, V28: Value, V29: Value, V30: Value> Arguments for (
        Handle<V1>,
        Handle<V2>,
        Handle<V3>,
        Handle<V4>,
        Handle<V5>,
        Handle<V6>,
        Handle<V7>,
        Handle<V8>,
        Handle<V9>,
        Handle<V10>,
        Handle<V11>,
        Handle<V12>,
        Handle<V13>,
        Handle<V14>,
        Handle<V15>,
        Handle<V16>,
        Handle<V17>,
        Handle<V18>,
        Handle<V19>,
        Handle<V20>,
        Handle<V21>,
        Handle<V22>,
        Handle<V23>,
        Handle<V24>,
        Handle<V25>,
        Handle<V26>,
        Handle<V27>,
        Handle<V28>,
        Handle<V29>,
        Handle<V30>,
    ) {
    open spec fn raws(self) -> Seq<Local> {
        seq![
            self.0.raw(),
            self.1.raw(),
            self.2.raw(),
            self.3.raw(),
            self.4.raw(),
            self.5.raw(),
            self.6.raw(),
            self.7.raw(),
            self.8.raw(),
            self.9.raw(),
            self.10.raw(),
            self.11.raw(),
            self.12.raw(),
            self.13.raw(),
            self.14.raw(),
            self.15.raw(),
            self.16.raw(),
            self.17.raw(),
            self.18.raw(),
            self.19.raw(),
            self.20.raw(),
            self.21.raw(),
            self.22.raw(),
            self.23.raw(),
            self.24.raw(),
            self.25.raw(),
            self.26.raw(),
            self.27.raw(),
            self.28.raw(),
            self.29.raw(),
        ]
    }

    fn append(self, args: &mut ArgsVec) {
        let (v1, v2, v3, v4, v5, v6, v7, v8, v9, v10, v11, v12, v13, v14, v15, v16, v17, v18, v19, v20, v21, v22, v23, v24, v25, v26, v27, v28, v29, v30) = self;
        args_push(args, v1.upcast());
        args_push(args, v2.upcast());
        args_push(args, v3.upcast());
        args_push(args, v4.upcast());
        args_push(args, v5.upcast());
        args_push(args, v6.upcast());
        args_push(args, v7.upcast());
        args_push(args, v8.upcast());
        args_push(args, v9.upcast());
        args_push(args, v10.upcast());
        args_push(args, v11.upcast());
        args_push(args, v12.upcast());
        args_push(args, v13.upcast());
        args_push(args, v14.upcast());
        args_push(args, v15.upcast());
        args_push(args, v16.upcast());
        args_push(args, v17.upcast());
        args_push(args, v18.upcast());
        args_push(args, v19.upcast());
        args_push(args, v20.upcast());
        args_push(args, v21.upcast());
        args_push(args, v22.upcast());
        args_push(args, v23.upcast());
        args_push(args, v24.upcast());
        args_push(args, v25.upcast());
        args_push(args, v26.upcast());
        args_push(args, v27.upcast());
        args_push(args, v28.upcast());
        args_push(args, v29.upcast());
        args_push(args, v30.upcast());
        proof {
            assert(raws_of(args_of(*args)) =~= raws_of(args_of(*old(args))) + self.raws());
        }
    }
}

impl<V1: Value, V2: Value, V3: Value, V4: Value, V5: Value, V6: Value, V7: Value, V8: Value, V9: Value, V10: Value, V11: Value, V12: Value, V13: Value, V14: Value, V15: Value, V16: Value, V17: Value, V18: Value, V19: Value, V20: Value, V21: Value, V22: Value, V23: Value, V24: Value, V25: Value, V26: Value, V27: Value, V28: Value, V29: Value, V30: Value, V31: Value> Arguments for (
        Handle<V1>,
        Handle<V2>,
        Handle<V3>,
        Handle<V4>,
        Handle<V5>,
        Handle<V6>,
        Handle<V7>,
        Handle<V8>,
        Handle<V9>,
        Handle<V10>,
        Handle<V11>,
        Handle<V12>,
        Handle<V13>,
        Handle<V14>,
        Handle<V15>,
        Handle<V16>,
        Handle<V17>,
        Handle<V18>,
        Handle<V19>,
        Handle<V20>,
        Handle<V21>,
        Handle<V22>,
        Handle<V23>,
        Handle<V24>,
        Handle<V25>,
        Handle<V26>,
        Handle<V27>,
        Handle<V28>,
        Handle<V29>,
        Handle<V30>,
        Handle<V31>,
    ) {
    open spec fn raws(self) -> Seq<Local> {
        seq![
            self.0.raw(),
            self.1.raw(),
            self.2.raw(),
            self.3.raw(),
            self.4.raw(),
            self.5.raw(),
            self.6.raw(),
            self.7.raw(),
            self.8.raw(),
            self.9.raw(),
            self.10.raw(),
            self.11.raw(),
            self.12.raw(),
            self.13.raw(),
            self.14.raw(),
            self.15.raw(),
            self.16.raw(),
            self.17.raw(),
            self.18.raw(),
            self.19.raw(),
            self.20.raw(),
            self.21.raw(),
            self.22.raw(),
            self.23.raw(),
            self.24.raw(),
            self.25.raw(),
            self.26.raw(),
            self.27.raw(),
            self.28.raw(),
            self.29.raw(),
            self.30.raw(),
        ]
    }

    fn append(self, args: &mut ArgsVec) {
        let (v1, v2, v3, v4, v5, v6, v7, v8, v9, v10, v11, v12, v13, v14, v15, v16, v17, v18, v19, v20, v21, v22, v23, v24, v25, v26, v27, v28, v29, v30, v31) = self;
        args_push(args, v1.upcast());
        args_push(args, v2.upcast());
        args_push(args, v3.upcast());
        args_push(args, v4.upcast());
        args_push(args, v5.upcast());
        args_push(args, v6.upcast());
        args_push(args, v7.upcast());
        args_push(args, v8.upcast());
        args_push(args, v9.upcast());
        args_push(args, v10.upcast());
        args_push(args, v11.upcast());
        args_push(args, v12.upcast());
        args_push(args, v13.upcast());
        args_push(args, v14.upcast());
        args_push(args, v15.upcast());
        args_push(args, v16.upcast());
        args_push(args, v17.upcast());
        args_push(args, v18.upcast());
        args_push(args, v19.upcast());
        args_push(args, v20.upcast());
        args_push(args, v21.upcast());
        args_push(args, v22.upcast());
        args_push(args, v23.upcast());
        args_push(args, v24.upcast());
        args_push(args, v25.upcast());
        args_push(args, v26.upcast());
        args_push(args, v27.upcast());
        args_push(args, v28.upcast());
        args_push(args, v29.upcast());
        args_push(args, v30.upcast());
        args_push(args, v31.upcast());
        proof {
            assert(raws_of(args_of(*args)) =~= raws_of(args_of(*old(args))) + self.raws());
        }
    }
}

impl<V1: Value, V2: Value, V3: Value, V4: Value, V5: Value, V6: Value, V7: Value, V8: Value, V9: Value, V10: Value, V11: Value, V12: Value, V13: Value, V14: Value, V15: Value, V16: Value, V17: Value, V18: Value, V19: Value, V20: Value, V21: Value, V22: Value, V23: Value, V24: Value, V25: Value, V26: Value, V27: Value, V28: Value, V29: Value, V30: Value, V31: Value, V32: Value> Arguments for (
        Handle<V1>,
        Handle<V2>,
        Handle<V3>,
        Handle<V4>,
        Handle<V5>,
        Handle<V6>,
        Handle<V7>,
        Handle<V8>,
        Handle<V9>,
        Handle<V10>,
        Handle<V11>,
        Handle<V12>,
        Handle<V13>,
        Handle<V14>,
        Handle<V15>,
        Handle<V16>,
        Handle<V17>,
        Handle<V18>,
        Handle<V19>,
        Handle<V20>,
        Handle<V21>,
        Handle<V22>,
        Handle<V23>,
        Handle<V24>,
        Handle<V25>,
        Handle<V26>,
        Handle<V27>,
        Handle<V28>,
        Handle<V29>,
        Handle<V30>,
        Handle<V31>,
        Handle<V32>,
    ) {
    open spec fn raws(self) -> Seq<Local> {
        seq![
            self.0.raw(),
            self.1.raw(),
            self.2.raw(),
            self.3.raw(),
            self.4.raw(),
            self.5.raw(),
            self.6.raw(),
            self.7.raw(),
            self.8.raw(),
            self.9.raw(),
            self.10.raw(),
            self.11.raw(),
            self.12.raw(),
            self.13.raw(),
            self.14.raw(),
            self.15.raw(),
            self.16.raw(),
            self.17.raw(),
            self.18.raw(),
            self.19.raw(),
            self.20.raw(),
            self.21.raw(),
            self.22.raw(),
            self.23.raw(),
            self.24.raw(),
            self.25.raw(),
            self.26.raw(),
            self.27.raw(),
            self.28.raw(),
            self.29.raw(),
            self.30.raw(),
            self.31.raw(),
        ]
    }

    fn append(self, args: &mut ArgsVec) {
        let (v1, v2, v3, v4, v5, v6, v7, v8, v9, v10, v11, v12, v13, v14, v15, v16, v17, v18, v19, v20, v21, v22, v23, v24, v25, v26, v27, v28, v29, v30, v31, v32) = self;
        args_push(args, v1.upcast());
        args_push(args, v2.upcast());
        args_push(args, v3.upcast());
        args_push(args, v4.upcast());
        args_push(args, v5.upcast());
        args_push(args, v6.upcast());
        args_push(args, v7.upcast());
        args_push(args, v8.upcast());
        args_push(args, v9.upcast());
        args_push(args, v10.upcast());
        args_push(args, v11.upcast());
        args_push(args, v12.upcast());
        args_push(args, v13.upcast());
        args_push(args, v14.upcast());
        args_push(args, v15.upcast());
        args_push(args, v16.upcast());
        args_push(args, v17.upcast());
        args_push(args, v18.upcast());
        args_push(args, v19.upcast());
        args_push(args, v20.upcast());
        args_push(args, v21.upcast());
        args_push(args, v22.upcast());
        args_push(args, v23.upcast());
        args_push(args, v24.upcast());
        args_push(args, v25.upcast());
        args_push(args, v26.upcast());
        args_push(args, v27.upcast());
        args_push(args, v28.upcast());
        args_push(args, v29.upcast());
        args_push(args, v30.upcast());
        args_push(args, v31.upcast());
        args_push(args, v32.upcast());
        proof {
            assert(raws_of(args_of(*args)) =~= raws_of(args_of(*old(args))) + self.raws());
        }
    }
}

} // verus!
