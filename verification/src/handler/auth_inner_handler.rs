use crate::dto::auth_dto::RoleRelPathDto;
use crate::model::response::{HttpReply, ResponseResult, MSG_SUCCESS};
use crate::model::state::{grouped, lists_exactly, PermissionTable};
use vstd::prelude::*;

verus! {

/// Every role of the table with its grants, each role once, in no fixed
/// order.
pub fn convert_to_hash_map(table: &PermissionTable) -> (pairs: Vec<(String, Vec<RoleRelPathDto>)>)
    ensures
        lists_exactly(pairs.deep_view(), table@),
{
    table.export()
}

/// Reloads the permission table and answers with what it now holds.
///
/// `loaded` is what the loader returned. Where it is a sequence of grants,
/// `table` becomes, as a whole, the table of exactly those grants (the
/// empty table for an empty sequence), and the answer is 200 with that
/// table as the data. Where the loader failed, `table` stays as it was and
/// the answer is 500 with the loader's failure as the message.
pub fn reflush_all_role_rel_resource(
    table: &mut PermissionTable,
    loaded: Result<Vec<RoleRelPathDto>, String>,
) -> (reply: HttpReply<Vec<(String, Vec<RoleRelPathDto>)>>)
    ensures
        match loaded {
            Ok(grants) => {
                &&& final(table)@ == grouped(grants.deep_view())
                &&& reply.status == 200
                &&& reply.body.code == 0
                &&& reply.body.msg@ == MSG_SUCCESS@
                &&& reply.body.data matches Some(pairs) && lists_exactly(
                    pairs.deep_view(),
                    final(table)@,
                )
            },
            Err(reason) => {
                &&& *final(table) == *old(table)
                &&& reply.status == 500
                &&& reply.body.code == -1
                &&& reply.body.msg == reason
                &&& reply.body.data is None
            },
        },
{
    match loaded {
        Ok(grants) => {
            table.replace(PermissionTable::from_entries(grants));
            let pairs = convert_to_hash_map(table);
            HttpReply { status: 200, body: ResponseResult::success_with_data(pairs) }
        },
        Err(reason) => HttpReply { status: 500, body: ResponseResult::fail(reason) },
    }
}

/// Answers with what the permission table holds: 200 with every role and
/// its grants as the data.
pub fn get_current_loaded_role_rel_resource(table: &PermissionTable) -> (reply: HttpReply<
    Vec<(String, Vec<RoleRelPathDto>)>,
>)
    ensures
        reply.status == 200,
        reply.body.code == 0,
        reply.body.msg@ == MSG_SUCCESS@,
        reply.body.data matches Some(pairs) && lists_exactly(pairs.deep_view(), table@),
{
    let pairs = convert_to_hash_map(table);
    HttpReply { status: 200, body: ResponseResult::success_with_data(pairs) }
}

} // verus!
