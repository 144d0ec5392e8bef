use vstd::prelude::*;
use vstd::slice::{slice_subrange, slice_to_vec};
use vstd::utf8::encode_utf8;

verus! {

/// The operands that the engine hands to one merge call: operand `i` is the
/// first `lens[i]` bytes of `list[i]`, for each `i` below `n`.
pub open spec fn operand_seq(list: Seq<&[u8]>, lens: Seq<usize>, n: int) -> Seq<Seq<u8>> {
    Seq::new(n as nat, |i: int| list[i]@.subrange(0, lens[i] as int))
}

/// The two arrays hold at least `n` entries, and each operand's length lies
/// within its buffer.
pub open spec fn operands_fit(list: Seq<&[u8]>, lens: Seq<usize>, n: int) -> bool {
    &&& 0 <= n <= list.len()
    &&& n <= lens.len()
    &&& forall|i: int| 0 <= i < n ==> #[trigger] lens[i] <= list[i]@.len()
}

/// A forward-only cursor over the operands of one merge call. It borrows
/// the engine's arrays and cannot outlive the call that they belong to.
pub struct MergeOperands<'a> {
    operands_list: &'a [&'a [u8]],
    operands_list_len: &'a [usize],
    num_operands: usize,
    cursor: usize,
}

impl<'a> MergeOperands<'a> {
    pub closed spec fn wf(&self) -> bool {
        &&& operands_fit(self.operands_list@, self.operands_list_len@, self.num_operands as int)
        &&& self.cursor <= self.num_operands
    }

    /// The operands not yet handed out, in order.
    pub closed spec fn remaining(&self) -> Seq<Seq<u8>> {
        operand_seq(
            self.operands_list@,
            self.operands_list_len@,
            self.num_operands as int,
        ).subrange(self.cursor as int, self.num_operands as int)
    }

    /// Starts at the first of the `num_operands` operands that the two
    /// parallel arrays describe.
    pub fn new(
        operands_list: &'a [&'a [u8]],
        operands_list_len: &'a [usize],
        num_operands: i32,
    ) -> (r: MergeOperands<'a>)
        requires
            num_operands >= 0,
            operands_fit(operands_list@, operands_list_len@, num_operands as int),
        ensures
            r.wf(),
            r.remaining() == operand_seq(
                operands_list@,
                operands_list_len@,
                num_operands as int,
            ),
    {
        let r = MergeOperands {
            operands_list,
            operands_list_len,
            num_operands: num_operands as usize,
            cursor: 0,
        };
        assert(r.remaining() =~= operand_seq(
            operands_list@,
            operands_list_len@,
            num_operands as int,
        ));
        r
    }

    /// The next operand, or nothing once all have been handed out.
    pub fn next(&mut self) -> (r: Option<&'a [u8]>)
        requires
            old(self).wf(),
        ensures
            final(self).wf(),
            old(self).remaining().len() == 0 ==> r is None && final(self).remaining() == old(
                self,
            ).remaining(),
            old(self).remaining().len() > 0 ==> r is Some && r->0@ == old(self).remaining()[0]
                && final(self).remaining() == old(self).remaining().drop_first(),
    {
        if self.cursor == self.num_operands {
            return Option::None;
        }
        let i = self.cursor;
        let op: &'a [u8] = self.operands_list[i];
        let len: usize = self.operands_list_len[i];
        assert(len <= op@.len());
        let item = slice_subrange(op, 0, len);
        self.cursor = i + 1;
        assert(self.remaining() =~= old(self).remaining().drop_first());
        Option::Some(item)
    }

    /// How many operands are left, as a lower and an upper bound.
    pub fn size_hint(&self) -> (r: (usize, Option<usize>))
        requires
            self.wf(),
        ensures
            r.0 == self.remaining().len(),
            r.1 == Option::Some(r.0),
    {
        let remaining = self.num_operands - self.cursor;
        (remaining, Option::Some(remaining))
    }
}

/// Copies what a merge function returned into a fresh buffer for the
/// engine, and reports success and the buffer's length through the engine's
/// out-parameters.
pub fn copy_merge_result(result: &[u8], success: &mut u8, new_value_length: &mut usize) -> (r:
    Vec<u8>)
    ensures
        r@ == result@,
        *final(success) == 1,
        *final(new_value_length) == result@.len(),
{
    let r = slice_to_vec(result);
    *success = 1;
    *new_value_length = r.len();
    r
}

/// A named merge operator: the user function that the engine's merge
/// callbacks call. The function gets the key, the existing value (none in a
/// partial merge) and the operands, and returns the merged value.
pub struct MergeOperatorState<F> {
    name: String,
    merge_fn: F,
}

impl<F> MergeOperatorState<F> where
    F: for <'b> Fn(&'b [u8], Option<&'b [u8]>, MergeOperands<'b>) -> Vec<u8>,
 {
    pub closed spec fn name(&self) -> Seq<char> {
        self.name@
    }

    pub closed spec fn merge_fn(&self) -> F {
        self.merge_fn
    }

    pub fn new(name: String, merge_fn: F) -> (r: MergeOperatorState<F>)
        ensures
            r.name() == name@,
            r.merge_fn() == merge_fn,
    {
        MergeOperatorState { name, merge_fn }
    }

    /// The operator's name as the engine reads it: its UTF-8 bytes followed
    /// by a terminating zero byte.
    pub fn mergeoperator_name(&self) -> (r: Vec<u8>)
        ensures
            r@ == encode_utf8(self.name()).push(0u8),
    {
        let mut r = slice_to_vec(self.name.as_str().as_bytes());
        r.push(0u8);
        r
    }

    /// The user function accepts `key`, `existing` and any cursor over the
    /// operands that the engine passes.
    pub open spec fn accepts<'b>(
        &self,
        key: &'b [u8],
        existing: Option<&'b [u8]>,
        operands_list: &'b [&'b [u8]],
        operands_list_len: &'b [usize],
        num_operands: i32,
    ) -> bool {
        forall|ops: MergeOperands<'b>|
            ops.wf() && ops.remaining() == operand_seq(
                operands_list@,
                operands_list_len@,
                num_operands as int,
            ) ==> #[trigger] self.merge_fn().requires((key, existing, ops))
    }

    /// `r` holds what the user function returned for `key`, `existing` and a
    /// cursor that hands out exactly the engine's operands, in their order.
    pub open spec fn merged<'b>(
        &self,
        key: &'b [u8],
        existing: Option<&'b [u8]>,
        operands_list: &'b [&'b [u8]],
        operands_list_len: &'b [usize],
        num_operands: i32,
        r: Seq<u8>,
    ) -> bool {
        exists|ops: MergeOperands<'b>, out: Vec<u8>|
            {
                &&& ops.remaining() == operand_seq(
                    operands_list@,
                    operands_list_len@,
                    num_operands as int,
                )
                &&& #[trigger] self.merge_fn().ensures((key, existing, ops), out)
                &&& r == out@
            }
    }

    fn run_merge<'b>(
        &self,
        key: &'b [u8],
        existing: Option<&'b [u8]>,
        operands_list: &'b [&'b [u8]],
        operands_list_len: &'b [usize],
        num_operands: i32,
        success: &mut u8,
        new_value_length: &mut usize,
    ) -> (r: Vec<u8>)
        requires
            num_operands >= 0,
            operands_fit(operands_list@, operands_list_len@, num_operands as int),
            self.accepts(key, existing, operands_list, operands_list_len, num_operands),
        ensures
            self.merged(key, existing, operands_list, operands_list_len, num_operands, r@),
            *final(success) == 1,
            *final(new_value_length) == r@.len(),
    {
        let operands = MergeOperands::new(operands_list, operands_list_len, num_operands);
        let ghost ops = operands;
        assert(self.merge_fn().requires((key, existing, ops)));
        let out = (self.merge_fn)(key, existing, operands);
        let r = copy_merge_result(out.as_slice(), success, new_value_length);
        assert(self.merge_fn().ensures((key, existing, ops), out));
        r
    }

    /// Merges the existing value of `key` with the operands that the engine
    /// passes, in their order, and hands the result back as a fresh buffer.
    pub fn full_merge<'b>(
        &self,
        key: &'b [u8],
        existing_value: &'b [u8],
        operands_list: &'b [&'b [u8]],
        operands_list_len: &'b [usize],
        num_operands: i32,
        success: &mut u8,
        new_value_length: &mut usize,
    ) -> (r: Vec<u8>)
        requires
            num_operands >= 0,
            operands_fit(operands_list@, operands_list_len@, num_operands as int),
            self.accepts(
                key,
                Option::Some(existing_value),
                operands_list,
                operands_list_len,
                num_operands,
            ),
        ensures
            self.merged(
                key,
                Option::Some(existing_value),
                operands_list,
                operands_list_len,
                num_operands,
                r@,
            ),
            *final(success) == 1,
            *final(new_value_length) == r@.len(),
    {
        self.run_merge(
            key,
            Option::Some(existing_value),
            operands_list,
            operands_list_len,
            num_operands,
            success,
            new_value_length,
        )
    }

    /// Combines the operands that the engine passes for `key`, in their
    /// order and with no existing value, and hands the result back as a
    /// fresh buffer.
    pub fn partial_merge<'b>(
        &self,
        key: &'b [u8],
        operands_list: &'b [&'b [u8]],
        operands_list_len: &'b [usize],
        num_operands: i32,
        success: &mut u8,
        new_value_length: &mut usize,
    ) -> (r: Vec<u8>)
        requires
            num_operands >= 0,
            operands_fit(operands_list@, operands_list_len@, num_operands as int),
            self.accepts(key, Option::None, operands_list, operands_list_len, num_operands),
        ensures
            self.merged(key, Option::None, operands_list, operands_list_len, num_operands, r@),
            *final(success) == 1,
            *final(new_value_length) == r@.len(),
    {
        self.run_merge(
            key,
            Option::None,
            operands_list,
            operands_list_len,
            num_operands,
            success,
            new_value_length,
        )
    }
}

} // verus!
