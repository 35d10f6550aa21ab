//! The migration catalog: versioned, ordered schema-change units.

use vstd::prelude::*;

use crate::statement::{Statement, StmtView};
use crate::value::{ColumnDef, ColumnView, Value, ValueView};

verus! {

/// The direction of a unit.  This engine only ever applies units forward,
/// but the catalog records a direction for completeness and future
/// reversibility.
#[derive(Clone, Copy, Debug, PartialEq, Eq, Structural)]
pub enum Direction {
    Up,
    Down,
}

/// The abstract form of a [`MigrationUnit`].
#[verifier::ext_equal]
pub ghost struct UnitView {
    pub version: int,
    pub description: Seq<char>,
    pub direction: Direction,
    pub ops: Seq<StmtView>,
}

/// One atomic schema change: a positive version that orders it within the
/// catalog, a human-readable description for diagnostics, a direction, and
/// the ordered batch of statements to execute in one transaction.
#[derive(Debug)]
pub struct MigrationUnit {
    pub version: u64,
    pub description: String,
    pub direction: Direction,
    pub operation: Vec<Statement>,
}

impl View for MigrationUnit {
    type V = UnitView;

    open spec fn view(&self) -> UnitView {
        UnitView {
            version: self.version as int,
            description: self.description@,
            direction: self.direction,
            ops: self.operation@.map_values(|s: Statement| s@),
        }
    }
}

/// The abstract form of a whole catalog.
pub open spec fn catalog_view(units: Seq<MigrationUnit>) -> Seq<UnitView> {
    units.map_values(|u: MigrationUnit| u@)
}

/// Whether two positions of the catalog share a version: a
/// catalog-construction error that the runner refuses to run with.
pub open spec fn dup_versions(c: Seq<UnitView>) -> bool {
    exists|i: int, j: int| 0 <= i < j < c.len() && c[i].version == c[j].version
}

/// Whether some unit carries an empty operation: equally a
/// catalog-construction error.
pub open spec fn has_empty_op(c: Seq<UnitView>) -> bool {
    exists|i: int| 0 <= i < c.len() && c[i].ops.len() == 0
}

/// A catalog the runner accepts: versions pairwise distinct and every
/// operation non-empty.
pub open spec fn catalog_ok(c: Seq<UnitView>) -> bool {
    !dup_versions(c) && !has_empty_op(c)
}

/// Versions ascending, ties allowed.
pub open spec fn sorted_by_version(c: Seq<UnitView>) -> bool {
    forall|i: int, j: int| 0 <= i < j < c.len() ==> c[i].version <= c[j].version
}

/// Versions strictly ascending.
pub open spec fn strictly_sorted(c: Seq<UnitView>) -> bool {
    forall|i: int, j: int| 0 <= i < j < c.len() ==> c[i].version < c[j].version
}

/// The column list of `user_settings` as first created.
pub open spec fn spec_user_settings_columns() -> Seq<ColumnView> {
    seq![
        ColumnView { name: "id"@, nullable: false },
        ColumnView { name: "name"@, nullable: false },
        ColumnView { name: "avatar"@, nullable: true },
        ColumnView { name: "theme"@, nullable: false },
        ColumnView { name: "sound_enabled"@, nullable: false },
        ColumnView { name: "notifications_enabled"@, nullable: false },
        ColumnView { name: "pomodoro_duration"@, nullable: false },
        ColumnView { name: "short_break_duration"@, nullable: false },
        ColumnView { name: "long_break_duration"@, nullable: false },
        ColumnView { name: "auto_start_breaks"@, nullable: false },
        ColumnView { name: "auto_start_pomodoros"@, nullable: false },
        ColumnView { name: "long_break_interval"@, nullable: false },
        ColumnView { name: "spotify_enabled"@, nullable: false },
        ColumnView { name: "spotify_access_token"@, nullable: true },
        ColumnView { name: "spotify_refresh_token"@, nullable: true },
        ColumnView { name: "spotify_token_expiry"@, nullable: true },
        ColumnView { name: "created_at"@, nullable: false },
        ColumnView { name: "updated_at"@, nullable: false },
    ]
}

/// The default settings row seeded at creation: id 1, name `User`, the
/// shipped defaults, no external-service tokens, timestamps left to the
/// host.
pub open spec fn spec_settings_row() -> Seq<ValueView> {
    seq![
        ValueView::Int(1),
        ValueView::Text("User"@),
        ValueView::Null,
        ValueView::Text("light"@),
        ValueView::Int(1),
        ValueView::Int(1),
        ValueView::Int(25),
        ValueView::Int(5),
        ValueView::Int(15),
        ValueView::Int(0),
        ValueView::Int(0),
        ValueView::Int(4),
        ValueView::Int(0),
        ValueView::Null,
        ValueView::Null,
        ValueView::Null,
        ValueView::Text(""@),
        ValueView::Text(""@),
    ]
}

/// The column list of `skills`.
pub open spec fn spec_skills_columns() -> Seq<ColumnView> {
    seq![
        ColumnView { name: "id"@, nullable: false },
        ColumnView { name: "name"@, nullable: false },
        ColumnView { name: "description"@, nullable: true },
        ColumnView { name: "goal_hours"@, nullable: false },
        ColumnView { name: "current_minutes"@, nullable: false },
        ColumnView { name: "color"@, nullable: false },
        ColumnView { name: "is_active"@, nullable: false },
        ColumnView { name: "created_at"@, nullable: false },
        ColumnView { name: "updated_at"@, nullable: false },
    ]
}

/// The column list of `tasks`.
pub open spec fn spec_tasks_columns() -> Seq<ColumnView> {
    seq![
        ColumnView { name: "id"@, nullable: false },
        ColumnView { name: "skill_id"@, nullable: false },
        ColumnView { name: "title"@, nullable: false },
        ColumnView { name: "description"@, nullable: true },
        ColumnView { name: "status"@, nullable: false },
        ColumnView { name: "priority"@, nullable: false },
        ColumnView { name: "due_date"@, nullable: true },
        ColumnView { name: "estimated_pomodoros"@, nullable: false },
        ColumnView { name: "pomodoro_sessions"@, nullable: false },
        ColumnView { name: "total_minutes"@, nullable: false },
        ColumnView { name: "order_index"@, nullable: false },
        ColumnView { name: "created_at"@, nullable: false },
        ColumnView { name: "completed_at"@, nullable: true },
    ]
}

/// The column list of `timer_sessions` as first created.
pub open spec fn spec_timer_sessions_columns() -> Seq<ColumnView> {
    seq![
        ColumnView { name: "id"@, nullable: false },
        ColumnView { name: "task_id"@, nullable: false },
        ColumnView { name: "skill_id"@, nullable: false },
        ColumnView { name: "start_time"@, nullable: false },
        ColumnView { name: "end_time"@, nullable: true },
        ColumnView { name: "duration"@, nullable: false },
        ColumnView { name: "type"@, nullable: false },
        ColumnView { name: "completed"@, nullable: false },
        ColumnView { name: "created_at"@, nullable: false },
    ]
}

/// The column list of `achievements`.
pub open spec fn spec_achievements_columns() -> Seq<ColumnView> {
    seq![
        ColumnView { name: "id"@, nullable: false },
        ColumnView { name: "type"@, nullable: false },
        ColumnView { name: "name"@, nullable: false },
        ColumnView { name: "description"@, nullable: false },
        ColumnView { name: "icon"@, nullable: false },
        ColumnView { name: "unlocked_at"@, nullable: true },
        ColumnView { name: "progress"@, nullable: false },
        ColumnView { name: "target"@, nullable: false },
        ColumnView { name: "created_at"@, nullable: false },
    ]
}

/// The column list of `reflections`.
pub open spec fn spec_reflections_columns() -> Seq<ColumnView> {
    seq![
        ColumnView { name: "id"@, nullable: false },
        ColumnView { name: "date"@, nullable: false },
        ColumnView { name: "content"@, nullable: false },
        ColumnView { name: "mood"@, nullable: true },
        ColumnView { name: "total_minutes"@, nullable: true },
        ColumnView { name: "created_at"@, nullable: false },
        ColumnView { name: "updated_at"@, nullable: false },
    ]
}

/// The column list of the `reflection_skills` join table.
pub open spec fn spec_reflection_skills_columns() -> Seq<ColumnView> {
    seq![
        ColumnView { name: "reflection_id"@, nullable: false },
        ColumnView { name: "skill_id"@, nullable: false },
    ]
}

/// The column list of `daily_activities`.
pub open spec fn spec_daily_activities_columns() -> Seq<ColumnView> {
    seq![
        ColumnView { name: "date"@, nullable: false },
        ColumnView { name: "total_minutes"@, nullable: false },
        ColumnView { name: "total_sessions"@, nullable: false },
    ]
}

/// One seeded achievement row, as a value: not yet unlocked, zero
/// progress, the given target, creation timestamp left to the host.
pub open spec fn spec_achievement_row(
    id: Seq<char>,
    kind: Seq<char>,
    name: Seq<char>,
    desc: Seq<char>,
    icon: Seq<char>,
    target: int,
) -> Seq<ValueView> {
    seq![
        ValueView::Text(id),
        ValueView::Text(kind),
        ValueView::Text(name),
        ValueView::Text(desc),
        ValueView::Text(icon),
        ValueView::Null,
        ValueView::Int(0),
        ValueView::Int(target),
        ValueView::Text(""@),
    ]
}

/// The statement that seeds one achievement.
pub open spec fn spec_seed_achievement(
    id: Seq<char>,
    kind: Seq<char>,
    name: Seq<char>,
    desc: Seq<char>,
    icon: Seq<char>,
    target: int,
) -> StmtView {
    StmtView::InsertRow {
        table: "achievements"@,
        row: spec_achievement_row(id, kind, name, desc, icon, target),
    }
}

/// The first unit, in full: the eight tables, the seeded settings row, and
/// the six query indexes, in order.
pub open spec fn spec_unit_create_initial_tables() -> UnitView {
    UnitView {
        version: 1,
        description: "create_initial_tables"@,
        direction: Direction::Up,
        ops: seq![
            StmtView::CreateTable {
                name: "user_settings"@,
                columns: spec_user_settings_columns(),
            },
            StmtView::InsertRow { table: "user_settings"@, row: spec_settings_row() },
            StmtView::CreateTable { name: "skills"@, columns: spec_skills_columns() },
            StmtView::CreateTable { name: "tasks"@, columns: spec_tasks_columns() },
            StmtView::CreateTable {
                name: "timer_sessions"@,
                columns: spec_timer_sessions_columns(),
            },
            StmtView::CreateTable {
                name: "achievements"@,
                columns: spec_achievements_columns(),
            },
            StmtView::CreateTable { name: "reflections"@, columns: spec_reflections_columns() },
            StmtView::CreateTable {
                name: "reflection_skills"@,
                columns: spec_reflection_skills_columns(),
            },
            StmtView::CreateTable {
                name: "daily_activities"@,
                columns: spec_daily_activities_columns(),
            },
            StmtView::CreateIndex { name: "idx_tasks_skill_id"@, table: "tasks"@ },
            StmtView::CreateIndex { name: "idx_tasks_status"@, table: "tasks"@ },
            StmtView::CreateIndex {
                name: "idx_timer_sessions_skill_id"@,
                table: "timer_sessions"@,
            },
            StmtView::CreateIndex {
                name: "idx_timer_sessions_task_id"@,
                table: "timer_sessions"@,
            },
            StmtView::CreateIndex {
                name: "idx_timer_sessions_created_at"@,
                table: "timer_sessions"@,
            },
            StmtView::CreateIndex {
                name: "idx_daily_activities_date"@,
                table: "daily_activities"@,
            },
        ],
    }
}

/// The second unit, in full: the fifteen seeded achievements, in order.
pub open spec fn spec_unit_insert_default_achievements() -> UnitView {
    UnitView {
        version: 2,
        description: "insert_default_achievements"@,
        direction: Direction::Up,
        ops: seq![
            spec_seed_achievement(
                "ach_first_hour"@,
                "first_hour"@,
                "First Hour"@,
                "Complete your first hour of focused work"@,
                "Clock"@,
                60,
            ),
            spec_seed_achievement(
                "ach_100_hours"@,
                "first_100_hours"@,
                "100 Hours"@,
                "Reach 100 hours of practice"@,
                "Trophy"@,
                6000,
            ),
            spec_seed_achievement(
                "ach_1000_hours"@,
                "first_1000_hours"@,
                "1000 Hours"@,
                "Reach 1000 hours of practice"@,
                "Award"@,
                60000,
            ),
            spec_seed_achievement(
                "ach_mastery"@,
                "skill_mastery"@,
                "Mastery Achieved"@,
                "Complete 10,000 hours on a skill"@,
                "Crown"@,
                600000,
            ),
            spec_seed_achievement(
                "ach_streak_7"@,
                "streak_7_days"@,
                "7 Day Streak"@,
                "Practice for 7 consecutive days"@,
                "Flame"@,
                7,
            ),
            spec_seed_achievement(
                "ach_streak_30"@,
                "streak_30_days"@,
                "30 Day Streak"@,
                "Practice for 30 consecutive days"@,
                "Star"@,
                30,
            ),
            spec_seed_achievement(
                "ach_streak_100"@,
                "streak_100_days"@,
                "100 Day Streak"@,
                "Practice for 100 consecutive days"@,
                "Zap"@,
                100,
            ),
            spec_seed_achievement(
                "ach_streak_365"@,
                "streak_365_days"@,
                "Year of Growth"@,
                "Practice for 365 consecutive days"@,
                "Sparkles"@,
                365,
            ),
            spec_seed_achievement(
                "ach_first_skill"@,
                "first_skill"@,
                "Journey Begins"@,
                "Create your first skill"@,
                "Target"@,
                1,
            ),
            spec_seed_achievement(
                "ach_five_skills"@,
                "five_skills"@,
                "Polymath"@,
                "Work on 5 different skills"@,
                "Book"@,
                5,
            ),
            spec_seed_achievement(
                "ach_ten_skills"@,
                "ten_skills"@,
                "Renaissance"@,
                "Work on 10 different skills"@,
                "Library"@,
                10,
            ),
            spec_seed_achievement(
                "ach_night_owl"@,
                "night_owl"@,
                "Night Owl"@,
                "Complete a session after midnight"@,
                "Moon"@,
                1,
            ),
            spec_seed_achievement(
                "ach_early_bird"@,
                "early_bird"@,
                "Early Bird"@,
                "Complete a session before 6 AM"@,
                "Sunrise"@,
                1,
            ),
            spec_seed_achievement(
                "ach_focused"@,
                "focused"@,
                "Laser Focused"@,
                "Complete 10 pomodoros in one day"@,
                "Focus"@,
                10,
            ),
            spec_seed_achievement(
                "ach_dedicated"@,
                "dedicated"@,
                "Dedicated"@,
                "Complete 50 pomodoros in one week"@,
                "Heart"@,
                50,
            ),
        ],
    }
}

/// The third unit, in full: the two new timer-session columns and their
/// backfills.
pub open spec fn spec_unit_add_timer_session_columns() -> UnitView {
    UnitView {
        version: 3,
        description: "add_timer_session_columns"@,
        direction: Direction::Up,
        ops: seq![
            StmtView::AddColumn {
                table: "timer_sessions"@,
                column: ColumnView { name: "planned_duration"@, nullable: true },
                fill: ValueView::Null,
            },
            StmtView::AddColumn {
                table: "timer_sessions"@,
                column: ColumnView { name: "session_type"@, nullable: true },
                fill: ValueView::Null,
            },
            StmtView::FillNullsFrom {
                table: "timer_sessions"@,
                column: "planned_duration"@,
                source: "duration"@,
            },
            StmtView::FillNulls {
                table: "timer_sessions"@,
                column: "session_type"@,
                value: ValueView::Text("pomodoro"@),
            },
        ],
    }
}

/// The `timer_sessions` column list after the rebuild: the accumulated
/// columns in order, with `task_id` now optional.
pub open spec fn spec_rebuilt_timer_sessions_columns() -> Seq<ColumnView> {
    seq![
        ColumnView { name: "id"@, nullable: false },
        ColumnView { name: "task_id"@, nullable: true },
        ColumnView { name: "skill_id"@, nullable: false },
        ColumnView { name: "start_time"@, nullable: false },
        ColumnView { name: "end_time"@, nullable: true },
        ColumnView { name: "duration"@, nullable: false },
        ColumnView { name: "type"@, nullable: false },
        ColumnView { name: "completed"@, nullable: false },
        ColumnView { name: "created_at"@, nullable: false },
        ColumnView { name: "planned_duration"@, nullable: true },
        ColumnView { name: "session_type"@, nullable: true },
    ]
}

/// The fourth unit, in full: the shadow rebuild of `timer_sessions` and
/// the recreation of its three indexes.
pub open spec fn spec_unit_make_task_id_nullable() -> UnitView {
    UnitView {
        version: 4,
        description: "make_task_id_nullable"@,
        direction: Direction::Up,
        ops: seq![
            StmtView::ShadowRebuild {
                table: "timer_sessions"@,
                columns: spec_rebuilt_timer_sessions_columns(),
            },
            StmtView::CreateIndex {
                name: "idx_timer_sessions_skill_id"@,
                table: "timer_sessions"@,
            },
            StmtView::CreateIndex {
                name: "idx_timer_sessions_task_id"@,
                table: "timer_sessions"@,
            },
            StmtView::CreateIndex {
                name: "idx_timer_sessions_created_at"@,
                table: "timer_sessions"@,
            },
        ],
    }
}

/// The fifth unit, in full: the two task backfills.
pub open spec fn spec_unit_add_task_priority_duedate_estimated() -> UnitView {
    UnitView {
        version: 5,
        description: "add_task_priority_duedate_estimated"@,
        direction: Direction::Up,
        ops: seq![
            StmtView::FillNulls {
                table: "tasks"@,
                column: "priority"@,
                value: ValueView::Text("medium"@),
            },
            StmtView::FillNulls {
                table: "tasks"@,
                column: "estimated_pomodoros"@,
                value: ValueView::Int(1),
            },
        ],
    }
}

/// The sixth unit, in full: the goal columns and the optional e-mail
/// address on `user_settings`.
pub open spec fn spec_unit_add_user_settings_goal_columns() -> UnitView {
    UnitView {
        version: 6,
        description: "add_user_settings_goal_columns"@,
        direction: Direction::Up,
        ops: seq![
            StmtView::AddColumn {
                table: "user_settings"@,
                column: ColumnView { name: "daily_goal_minutes"@, nullable: false },
                fill: ValueView::Int(240),
            },
            StmtView::AddColumn {
                table: "user_settings"@,
                column: ColumnView { name: "weekly_goal_minutes"@, nullable: false },
                fill: ValueView::Int(420),
            },
            StmtView::AddColumn {
                table: "user_settings"@,
                column: ColumnView { name: "email"@, nullable: true },
                fill: ValueView::Null,
            },
        ],
    }
}

/// The whole shipped catalog, as a value: what [`get_migrations`] returns,
/// unit by unit, statement by statement.
pub open spec fn spec_catalog() -> Seq<UnitView> {
    seq![
        spec_unit_create_initial_tables(),
        spec_unit_insert_default_achievements(),
        spec_unit_add_timer_session_columns(),
        spec_unit_make_task_id_nullable(),
        spec_unit_add_task_priority_duedate_estimated(),
        spec_unit_add_user_settings_goal_columns(),
    ]
}

/// A column definition from a name and its nullability.
fn col(name: &str, nullable: bool) -> (c: ColumnDef)
    ensures
        c@ == (ColumnView { name: name@, nullable }),
{
    ColumnDef { name: name.to_string(), nullable }
}

/// A text cell.
fn text(s: &str) -> (v: Value)
    ensures
        v@ == ValueView::Text(s@),
{
    Value::Text(s.to_string())
}

/// One seeded achievement row: identifier, kind, name, description, icon,
/// not yet unlocked, zero progress, the given target, and a creation
/// timestamp left for the host to maintain.
fn achievement_row(id: &str, kind: &str, name: &str, desc: &str, icon: &str, target: i64) -> (r:
    Vec<Value>)
    ensures
        crate::statement::row_view(r@) == spec_achievement_row(
            id@,
            kind@,
            name@,
            desc@,
            icon@,
            target as int,
        ),
{
    let mut r: Vec<Value> = Vec::new();
    r.push(text(id));
    r.push(text(kind));
    r.push(text(name));
    r.push(text(desc));
    r.push(text(icon));
    r.push(Value::Null);
    r.push(Value::Int(0));
    r.push(Value::Int(target));
    r.push(text(""));
    proof {
        assert(crate::statement::row_view(r@) =~= spec_achievement_row(
            id@,
            kind@,
            name@,
            desc@,
            icon@,
            target as int,
        ));
    }
    r
}

/// The first unit: every table of the schema, the default settings row,
/// and the query indexes.
fn unit_create_initial_tables() -> (u: MigrationUnit)
    ensures
        u@ == spec_unit_create_initial_tables(),
{
    let mut ops: Vec<Statement> = Vec::new();

    let mut user_settings: Vec<ColumnDef> = Vec::new();
    user_settings.push(col("id", false));
    user_settings.push(col("name", false));
    user_settings.push(col("avatar", true));
    user_settings.push(col("theme", false));
    user_settings.push(col("sound_enabled", false));
    user_settings.push(col("notifications_enabled", false));
    user_settings.push(col("pomodoro_duration", false));
    user_settings.push(col("short_break_duration", false));
    user_settings.push(col("long_break_duration", false));
    user_settings.push(col("auto_start_breaks", false));
    user_settings.push(col("auto_start_pomodoros", false));
    user_settings.push(col("long_break_interval", false));
    user_settings.push(col("spotify_enabled", false));
    user_settings.push(col("spotify_access_token", true));
    user_settings.push(col("spotify_refresh_token", true));
    user_settings.push(col("spotify_token_expiry", true));
    user_settings.push(col("created_at", false));
    user_settings.push(col("updated_at", false));
    proof {
        assert(crate::statement::cols_view(user_settings@) =~= spec_user_settings_columns());
    }
    ops.push(Statement::CreateTable { name: "user_settings".to_string(), columns: user_settings });

    let mut settings_row: Vec<Value> = Vec::new();
    settings_row.push(Value::Int(1));
    settings_row.push(text("User"));
    settings_row.push(Value::Null);
    settings_row.push(text("light"));
    settings_row.push(Value::Int(1));
    settings_row.push(Value::Int(1));
    settings_row.push(Value::Int(25));
    settings_row.push(Value::Int(5));
    settings_row.push(Value::Int(15));
    settings_row.push(Value::Int(0));
    settings_row.push(Value::Int(0));
    settings_row.push(Value::Int(4));
    settings_row.push(Value::Int(0));
    settings_row.push(Value::Null);
    settings_row.push(Value::Null);
    settings_row.push(Value::Null);
    settings_row.push(text(""));
    settings_row.push(text(""));
    proof {
        assert(crate::statement::row_view(settings_row@) =~= spec_settings_row());
    }
    ops.push(Statement::InsertRow { table: "user_settings".to_string(), row: settings_row });

    let mut skills: Vec<ColumnDef> = Vec::new();
    skills.push(col("id", false));
    skills.push(col("name", false));
    skills.push(col("description", true));
    skills.push(col("goal_hours", false));
    skills.push(col("current_minutes", false));
    skills.push(col("color", false));
    skills.push(col("is_active", false));
    skills.push(col("created_at", false));
    skills.push(col("updated_at", false));
    proof {
        assert(crate::statement::cols_view(skills@) =~= spec_skills_columns());
    }
    ops.push(Statement::CreateTable { name: "skills".to_string(), columns: skills });

    let mut tasks: Vec<ColumnDef> = Vec::new();
    tasks.push(col("id", false));
    tasks.push(col("skill_id", false));
    tasks.push(col("title", false));
    tasks.push(col("description", true));
    tasks.push(col("status", false));
    tasks.push(col("priority", false));
    tasks.push(col("due_date", true));
    tasks.push(col("estimated_pomodoros", false));
    tasks.push(col("pomodoro_sessions", false));
    tasks.push(col("total_minutes", false));
    tasks.push(col("order_index", false));
    tasks.push(col("created_at", false));
    tasks.push(col("completed_at", true));
    proof {
        assert(crate::statement::cols_view(tasks@) =~= spec_tasks_columns());
    }
    ops.push(Statement::CreateTable { name: "tasks".to_string(), columns: tasks });

    let mut timer_sessions: Vec<ColumnDef> = Vec::new();
    timer_sessions.push(col("id", false));
    timer_sessions.push(col("task_id", false));
    timer_sessions.push(col("skill_id", false));
    timer_sessions.push(col("start_time", false));
    timer_sessions.push(col("end_time", true));
    timer_sessions.push(col("duration", false));
    timer_sessions.push(col("type", false));
    timer_sessions.push(col("completed", false));
    timer_sessions.push(col("created_at", false));
    proof {
        assert(crate::statement::cols_view(timer_sessions@) =~= spec_timer_sessions_columns());
    }
    ops.push(
        Statement::CreateTable { name: "timer_sessions".to_string(), columns: timer_sessions },
    );

    let mut achievements: Vec<ColumnDef> = Vec::new();
    achievements.push(col("id", false));
    achievements.push(col("type", false));
    achievements.push(col("name", false));
    achievements.push(col("description", false));
    achievements.push(col("icon", false));
    achievements.push(col("unlocked_at", true));
    achievements.push(col("progress", false));
    achievements.push(col("target", false));
    achievements.push(col("created_at", false));
    proof {
        assert(crate::statement::cols_view(achievements@) =~= spec_achievements_columns());
    }
    ops.push(Statement::CreateTable { name: "achievements".to_string(), columns: achievements });

    let mut reflections: Vec<ColumnDef> = Vec::new();
    reflections.push(col("id", false));
    reflections.push(col("date", false));
    reflections.push(col("content", false));
    reflections.push(col("mood", true));
    reflections.push(col("total_minutes", true));
    reflections.push(col("created_at", false));
    reflections.push(col("updated_at", false));
    proof {
        assert(crate::statement::cols_view(reflections@) =~= spec_reflections_columns());
    }
    ops.push(Statement::CreateTable { name: "reflections".to_string(), columns: reflections });

    let mut reflection_skills: Vec<ColumnDef> = Vec::new();
    reflection_skills.push(col("reflection_id", false));
    reflection_skills.push(col("skill_id", false));
    proof {
        assert(crate::statement::cols_view(reflection_skills@) =~= spec_reflection_skills_columns());
    }
    ops.push(
        Statement::CreateTable {
            name: "reflection_skills".to_string(),
            columns: reflection_skills,
        },
    );

    let mut daily_activities: Vec<ColumnDef> = Vec::new();
    daily_activities.push(col("date", false));
    daily_activities.push(col("total_minutes", false));
    daily_activities.push(col("total_sessions", false));
    proof {
        assert(crate::statement::cols_view(daily_activities@) =~= spec_daily_activities_columns());
    }
    ops.push(
        Statement::CreateTable {
            name: "daily_activities".to_string(),
            columns: daily_activities,
        },
    );

    ops.push(Statement::CreateIndex {
        name: "idx_tasks_skill_id".to_string(),
        table: "tasks".to_string(),
    });
    ops.push(Statement::CreateIndex {
        name: "idx_tasks_status".to_string(),
        table: "tasks".to_string(),
    });
    ops.push(Statement::CreateIndex {
        name: "idx_timer_sessions_skill_id".to_string(),
        table: "timer_sessions".to_string(),
    });
    ops.push(Statement::CreateIndex {
        name: "idx_timer_sessions_task_id".to_string(),
        table: "timer_sessions".to_string(),
    });
    ops.push(Statement::CreateIndex {
        name: "idx_timer_sessions_created_at".to_string(),
        table: "timer_sessions".to_string(),
    });
    ops.push(Statement::CreateIndex {
        name: "idx_daily_activities_date".to_string(),
        table: "daily_activities".to_string(),
    });

    let u = MigrationUnit {
        version: 1,
        description: "create_initial_tables".to_string(),
        direction: Direction::Up,
        operation: ops,
    };
    proof {
        assert(u@ =~= spec_unit_create_initial_tables());
    }
    u
}

/// The second unit: the fixed list of seeded achievements.
fn unit_insert_default_achievements() -> (u: MigrationUnit)
    ensures
        u@ == spec_unit_insert_default_achievements(),
{
    let mut ops: Vec<Statement> = Vec::new();
    ops.push(Statement::InsertRow {
        table: "achievements".to_string(),
        row: achievement_row(
            "ach_first_hour",
            "first_hour",
            "First Hour",
            "Complete your first hour of focused work",
            "Clock",
            60,
        ),
    });
    ops.push(Statement::InsertRow {
        table: "achievements".to_string(),
        row: achievement_row(
            "ach_100_hours",
            "first_100_hours",
            "100 Hours",
            "Reach 100 hours of practice",
            "Trophy",
            6000,
        ),
    });
    ops.push(Statement::InsertRow {
        table: "achievements".to_string(),
        row: achievement_row(
            "ach_1000_hours",
            "first_1000_hours",
            "1000 Hours",
            "Reach 1000 hours of practice",
            "Award",
            60000,
        ),
    });
    ops.push(Statement::InsertRow {
        table: "achievements".to_string(),
        row: achievement_row(
            "ach_mastery",
            "skill_mastery",
            "Mastery Achieved",
            "Complete 10,000 hours on a skill",
            "Crown",
            600000,
        ),
    });
    ops.push(Statement::InsertRow {
        table: "achievements".to_string(),
        row: achievement_row(
            "ach_streak_7",
            "streak_7_days",
            "7 Day Streak",
            "Practice for 7 consecutive days",
            "Flame",
            7,
        ),
    });
    ops.push(Statement::InsertRow {
        table: "achievements".to_string(),
        row: achievement_row(
            "ach_streak_30",
            "streak_30_days",
            "30 Day Streak",
            "Practice for 30 consecutive days",
            "Star",
            30,
        ),
    });
    ops.push(Statement::InsertRow {
        table: "achievements".to_string(),
        row: achievement_row(
            "ach_streak_100",
            "streak_100_days",
            "100 Day Streak",
            "Practice for 100 consecutive days",
            "Zap",
            100,
        ),
    });
    ops.push(Statement::InsertRow {
        table: "achievements".to_string(),
        row: achievement_row(
            "ach_streak_365",
            "streak_365_days",
            "Year of Growth",
            "Practice for 365 consecutive days",
            "Sparkles",
            365,
        ),
    });
    ops.push(Statement::InsertRow {
        table: "achievements".to_string(),
        row: achievement_row(
            "ach_first_skill",
            "first_skill",
            "Journey Begins",
            "Create your first skill",
            "Target",
            1,
        ),
    });
    ops.push(Statement::InsertRow {
        table: "achievements".to_string(),
        row: achievement_row(
            "ach_five_skills",
            "five_skills",
            "Polymath",
            "Work on 5 different skills",
            "Book",
            5,
        ),
    });
    ops.push(Statement::InsertRow {
        table: "achievements".to_string(),
        row: achievement_row(
            "ach_ten_skills",
            "ten_skills",
            "Renaissance",
            "Work on 10 different skills",
            "Library",
            10,
        ),
    });
    ops.push(Statement::InsertRow {
        table: "achievements".to_string(),
        row: achievement_row(
            "ach_night_owl",
            "night_owl",
            "Night Owl",
            "Complete a session after midnight",
            "Moon",
            1,
        ),
    });
    ops.push(Statement::InsertRow {
        table: "achievements".to_string(),
        row: achievement_row(
            "ach_early_bird",
            "early_bird",
            "Early Bird",
            "Complete a session before 6 AM",
            "Sunrise",
            1,
        ),
    });
    ops.push(Statement::InsertRow {
        table: "achievements".to_string(),
        row: achievement_row(
            "ach_focused",
            "focused",
            "Laser Focused",
            "Complete 10 pomodoros in one day",
            "Focus",
            10,
        ),
    });
    ops.push(Statement::InsertRow {
        table: "achievements".to_string(),
        row: achievement_row(
            "ach_dedicated",
            "dedicated",
            "Dedicated",
            "Complete 50 pomodoros in one week",
            "Heart",
            50,
        ),
    });

    let u = MigrationUnit {
        version: 2,
        description: "insert_default_achievements".to_string(),
        direction: Direction::Up,
        operation: ops,
    };
    proof {
        assert(u@ =~= spec_unit_insert_default_achievements());
    }
    u
}

/// The third unit: two new timer-session columns, backfilled for existing
/// rows — the planned duration from the recorded duration, the session
/// type with its default.
fn unit_add_timer_session_columns() -> (u: MigrationUnit)
    ensures
        u@ == spec_unit_add_timer_session_columns(),
{
    let mut ops: Vec<Statement> = Vec::new();
    ops.push(Statement::AddColumn {
        table: "timer_sessions".to_string(),
        column: col("planned_duration", true),
        fill: Value::Null,
    });
    ops.push(Statement::AddColumn {
        table: "timer_sessions".to_string(),
        column: col("session_type", true),
        fill: Value::Null,
    });
    ops.push(Statement::FillNullsFrom {
        table: "timer_sessions".to_string(),
        column: "planned_duration".to_string(),
        source: "duration".to_string(),
    });
    ops.push(Statement::FillNulls {
        table: "timer_sessions".to_string(),
        column: "session_type".to_string(),
        value: text("pomodoro"),
    });
    let u = MigrationUnit {
        version: 3,
        description: "add_timer_session_columns".to_string(),
        direction: Direction::Up,
        operation: ops,
    };
    proof {
        assert(u@ =~= spec_unit_add_timer_session_columns());
    }
    u
}

/// The fourth unit: a shadow-table rebuild of `timer_sessions` that makes
/// `task_id` optional — the column list keeps its accumulated order and
/// every row is carried over unchanged — followed by recreating the
/// table's indexes, which the rebuild drops.
fn unit_make_task_id_nullable() -> (u: MigrationUnit)
    ensures
        u@ == spec_unit_make_task_id_nullable(),
{
    let mut ops: Vec<Statement> = Vec::new();
    let mut columns: Vec<ColumnDef> = Vec::new();
    columns.push(col("id", false));
    columns.push(col("task_id", true));
    columns.push(col("skill_id", false));
    columns.push(col("start_time", false));
    columns.push(col("end_time", true));
    columns.push(col("duration", false));
    columns.push(col("type", false));
    columns.push(col("completed", false));
    columns.push(col("created_at", false));
    columns.push(col("planned_duration", true));
    columns.push(col("session_type", true));
    proof {
        assert(crate::statement::cols_view(columns@) =~= spec_rebuilt_timer_sessions_columns());
    }
    ops.push(Statement::ShadowRebuild { table: "timer_sessions".to_string(), columns });
    ops.push(Statement::CreateIndex {
        name: "idx_timer_sessions_skill_id".to_string(),
        table: "timer_sessions".to_string(),
    });
    ops.push(Statement::CreateIndex {
        name: "idx_timer_sessions_task_id".to_string(),
        table: "timer_sessions".to_string(),
    });
    ops.push(Statement::CreateIndex {
        name: "idx_timer_sessions_created_at".to_string(),
        table: "timer_sessions".to_string(),
    });
    let u = MigrationUnit {
        version: 4,
        description: "make_task_id_nullable".to_string(),
        direction: Direction::Up,
        operation: ops,
    };
    proof {
        assert(u@ =~= spec_unit_make_task_id_nullable());
    }
    u
}

/// The fifth unit: backfill task defaults that earlier application
/// versions may have left unset.
fn unit_add_task_priority_duedate_estimated() -> (u: MigrationUnit)
    ensures
        u@ == spec_unit_add_task_priority_duedate_estimated(),
{
    let mut ops: Vec<Statement> = Vec::new();
    ops.push(Statement::FillNulls {
        table: "tasks".to_string(),
        column: "priority".to_string(),
        value: text("medium"),
    });
    ops.push(Statement::FillNulls {
        table: "tasks".to_string(),
        column: "estimated_pomodoros".to_string(),
        value: Value::Int(1),
    });
    let u = MigrationUnit {
        version: 5,
        description: "add_task_priority_duedate_estimated".to_string(),
        direction: Direction::Up,
        operation: ops,
    };
    proof {
        assert(u@ =~= spec_unit_add_task_priority_duedate_estimated());
    }
    u
}

/// The sixth unit: daily and weekly goal columns and an optional e-mail
/// address on the settings row.
fn unit_add_user_settings_goal_columns() -> (u: MigrationUnit)
    ensures
        u@ == spec_unit_add_user_settings_goal_columns(),
{
    let mut ops: Vec<Statement> = Vec::new();
    ops.push(Statement::AddColumn {
        table: "user_settings".to_string(),
        column: col("daily_goal_minutes", false),
        fill: Value::Int(240),
    });
    ops.push(Statement::AddColumn {
        table: "user_settings".to_string(),
        column: col("weekly_goal_minutes", false),
        fill: Value::Int(420),
    });
    ops.push(Statement::AddColumn {
        table: "user_settings".to_string(),
        column: col("email", true),
        fill: Value::Null,
    });
    let u = MigrationUnit {
        version: 6,
        description: "add_user_settings_goal_columns".to_string(),
        direction: Direction::Up,
        operation: ops,
    };
    proof {
        assert(u@ =~= spec_unit_add_user_settings_goal_columns());
    }
    u
}

/// The full catalog, in ascending version order: one unit per schema
/// revision the application has shipped.
pub fn get_migrations() -> (r: Vec<MigrationUnit>)
    ensures
        catalog_view(r@) == spec_catalog(),
        r@.len() == 6,
        forall|i: int| 0 <= i < 6 ==> (#[trigger] catalog_view(r@)[i]).version == i + 1,
        forall|i: int| 0 <= i < 6 ==> (#[trigger] catalog_view(r@)[i]).direction == Direction::Up,
        forall|i: int| 0 <= i < 6 ==> (#[trigger] catalog_view(r@)[i]).ops.len() > 0,
        forall|i: int| 0 <= i < 6 ==> (#[trigger] catalog_view(r@)[i]).description.len() > 0,
        strictly_sorted(catalog_view(r@)),
        catalog_ok(catalog_view(r@)),
{
    let mut r: Vec<MigrationUnit> = Vec::new();
    r.push(unit_create_initial_tables());
    r.push(unit_insert_default_achievements());
    r.push(unit_add_timer_session_columns());
    r.push(unit_make_task_id_nullable());
    r.push(unit_add_task_priority_duedate_estimated());
    r.push(unit_add_user_settings_goal_columns());
    proof {
        let c = catalog_view(r@);
        assert(c =~= spec_catalog());
        reveal_strlit("create_initial_tables");
        reveal_strlit("insert_default_achievements");
        reveal_strlit("add_timer_session_columns");
        reveal_strlit("make_task_id_nullable");
        reveal_strlit("add_task_priority_duedate_estimated");
        reveal_strlit("add_user_settings_goal_columns");
        assert forall|i: int| 0 <= i < 6 implies (#[trigger] c[i]).version == i + 1 && c[i].direction
            == Direction::Up && c[i].ops.len() > 0 && c[i].description.len() > 0 by {
            assert(c[i] == spec_catalog()[i]);
        }
    }
    r
}

} // verus!
