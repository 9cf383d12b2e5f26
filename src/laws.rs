use vstd::prelude::*;

use crate::error::{STATUS_CREATED, STATUS_INTERNAL_SERVER_ERROR, STATUS_NO_CONTENT, STATUS_OK};
use crate::handlers::{
    body_user, create_user_post, delete_user_post, get_user_post, get_users_post,
    is_error, ApiResponse, CreateUserSchema, ResponseBody,
};
use crate::models::{Timestamp, User};
use crate::repository::{email_taken, lemma_lookup_without_id, lookup, UserTable};

verus! {

/// Creating a user from a valid payload whose email is not yet taken answers
/// `201` with a user whose identifier is not empty and whose name and email
/// are those of the payload.
pub proof fn law_create_echoes_input(
    t0: UserTable,
    body: CreateUserSchema,
    now: Timestamp,
    t1: UserTable,
    r: ApiResponse,
)
    requires
        t0.wf(),
        t0.has_room(),
        body.valid(),
        !email_taken(t0.rows(), body.email@),
        create_user_post(t0, body, now, t1, r),
    ensures
        r.status == STATUS_CREATED,
        body_user(r) matches Some(u) && u.id != 0 && u.name@ == body.name@ && u.email@ == body.email@,
{
}

/// Two creates with the same email: the first answers `201`, the second `500`
/// with `email already exists`.
pub proof fn law_duplicate_email_rejected(
    t0: UserTable,
    b1: CreateUserSchema,
    n1: Timestamp,
    t1: UserTable,
    r1: ApiResponse,
    b2: CreateUserSchema,
    n2: Timestamp,
    t2: UserTable,
    r2: ApiResponse,
)
    requires
        t0.wf(),
        t0.has_room(),
        b1.valid(),
        b2.valid(),
        b1.email@ == b2.email@,
        !email_taken(t0.rows(), b1.email@),
        create_user_post(t0, b1, n1, t1, r1),
        create_user_post(t1, b2, n2, t2, r2),
    ensures
        r1.status == STATUS_CREATED,
        is_error(r2, STATUS_INTERNAL_SERVER_ERROR, "email already exists"@),
        t2.rows() == t1.rows(),
{
    let u = body_user(r1)->Some_0;
    let k = t0.rows().len() as int;
    assert(t1.rows()[k] == u);
    assert(email_taken(t1.rows(), b2.email@));
}

/// Fetching a just-created user by the identifier it was given answers `200`
/// with the same name and email.
pub proof fn law_fetch_after_create(
    t0: UserTable,
    body: CreateUserSchema,
    now: Timestamp,
    t1: UserTable,
    r1: ApiResponse,
    u: User,
    r2: ApiResponse,
)
    requires
        t0.wf(),
        t0.has_room(),
        body.valid(),
        !email_taken(t0.rows(), body.email@),
        create_user_post(t0, body, now, t1, r1),
        body_user(r1) == Some(u),
        get_user_post(t1, u.id, r2),
    ensures
        r2.status == STATUS_OK,
        body_user(r2) matches Some(v) && v.id == u.id && v.name@ == body.name@ && v.email@ == body.email@,
{
    assert(t1.rows().drop_last() == t0.rows());
}

/// Fetching an identifier that no user has answers `500`, not `404`.
pub proof fn law_fetch_unknown_fails(t: UserTable, id: u128, r: ApiResponse)
    requires
        t.wf(),
        lookup(t.rows(), id) is None,
        get_user_post(t, id, r),
    ensures
        is_error(r, STATUS_INTERNAL_SERVER_ERROR, "internal server error"@),
{
}

/// After a sequence of successful creates, a listing answers `200` with at
/// least as many users as were created, every created user among them.
pub proof fn law_list_after_creates(
    tables: Seq<UserTable>,
    bodies: Seq<CreateUserSchema>,
    times: Seq<Timestamp>,
    answers: Seq<ApiResponse>,
    r: ApiResponse,
)
    requires
        tables.len() == bodies.len() + 1,
        times.len() == bodies.len(),
        answers.len() == bodies.len(),
        tables[0].wf(),
        forall|k: int| 0 <= k < bodies.len() ==> create_user_post(
            #[trigger] tables[k],
            bodies[k],
            times[k],
            tables[k + 1],
            answers[k],
        ),
        forall|k: int| 0 <= k < answers.len() ==> (#[trigger] answers[k]).status == STATUS_CREATED,
        get_users_post(tables.last(), r),
    ensures
        r.status == STATUS_OK,
        r.body matches ResponseBody::Users(v) && {
            &&& v@.len() >= bodies.len()
            &&& forall|k: int| 0 <= k < answers.len() ==> v@.contains(
                #[trigger] body_user(answers[k])->Some_0,
            )
        },
{
    assert forall|k: int| 0 <= k < answers.len() implies appends_created(
        tables[k],
        tables[k + 1],
        #[trigger] answers[k],
    ) by {
        lemma_created_appends(tables[k], bodies[k], times[k], tables[k + 1], answers[k]);
    }
    lemma_creates_keep_rows(tables, answers, bodies.len() as int);
    let v = r.body->Users_0;
    assert forall|k: int| 0 <= k < answers.len() implies v@.contains(
        #[trigger] body_user(answers[k])->Some_0,
    ) by {
        let i = tables[k].rows().len() as int;
        assert(tables.last().rows()[i] == body_user(answers[k])->Some_0);
    }
}

/// The table `t1` is `t0` with the user that `r` carries added at the end.
spec fn appends_created(t0: UserTable, t1: UserTable, r: ApiResponse) -> bool {
    t1.rows() == t0.rows().push(body_user(r)->Some_0)
}

proof fn lemma_created_appends(t0: UserTable, body: CreateUserSchema, now: Timestamp, t1: UserTable, r: ApiResponse)
    requires
        create_user_post(t0, body, now, t1, r),
        r.status == STATUS_CREATED,
    ensures
        appends_created(t0, t1, r),
{
}

proof fn lemma_creates_keep_rows(tables: Seq<UserTable>, answers: Seq<ApiResponse>, n: int)
    requires
        0 <= n < tables.len(),
        answers.len() == tables.len() - 1,
        forall|k: int| 0 <= k < answers.len() ==> appends_created(
            tables[k],
            tables[k + 1],
            #[trigger] answers[k],
        ),
    ensures
        tables[n].rows().len() >= tables[0].rows().len() + n,
        forall|k: int| #![trigger answers[k]] 0 <= k < n ==> {
            &&& tables[k].rows().len() < tables[n].rows().len()
            &&& tables[n].rows()[tables[k].rows().len() as int] == body_user(answers[k])->Some_0
        },
    decreases n,
{
    if n > 0 {
        lemma_creates_keep_rows(tables, answers, n - 1);
        let prev = tables[n - 1].rows();
        assert(appends_created(tables[n - 1], tables[n], answers[n - 1]));
        assert forall|k: int| #![trigger answers[k]] 0 <= k < n implies {
            &&& tables[k].rows().len() < tables[n].rows().len()
            &&& tables[n].rows()[tables[k].rows().len() as int] == body_user(answers[k])->Some_0
        } by {
            if k < n - 1 {
                assert(prev[tables[k].rows().len() as int] == body_user(answers[k])->Some_0);
            }
        }
    }
}

/// Listing an empty table answers `200` with an empty array.
pub proof fn law_list_empty(t: UserTable, r: ApiResponse)
    requires
        t.rows().len() == 0,
        get_users_post(t, r),
    ensures
        r.status == STATUS_OK,
        r.body matches ResponseBody::Users(v) && v@.len() == 0,
{
}

/// Deleting any identifier, whether a user had it or not, answers `204`, and
/// a fetch of that identifier afterwards fails.
pub proof fn law_delete_then_fetch_fails(t0: UserTable, id: u128, t1: UserTable, r1: ApiResponse, r2: ApiResponse)
    requires
        t0.wf(),
        delete_user_post(t0, id, t1, r1),
        get_user_post(t1, id, r2),
    ensures
        r1.status == STATUS_NO_CONTENT,
        is_error(r2, STATUS_INTERNAL_SERVER_ERROR, "internal server error"@),
{
    lemma_lookup_without_id(t0.rows(), id);
}

} // verus!
