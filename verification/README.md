# school_db

The data layer of a school backend, in Verus.

`src/` holds what can be proved. Each operation says which statements it sends
to the database, with which values bound, and what it decides from the
replies. An operation of one statement is a function that returns it. A
transaction is a step function: it takes the state it waits in and the reply
to that state's statement, and gives the next state, the commit or the
refusal. Beside the steps stand models of the tables, and proof functions
(`law_*`) that state what the transactions keep: counters equal to the rows
they count, freezes, quotas, one-way transitions, refunds.

`app/` holds the rest: it binds values, sends statements through sqlx, decodes
rows and carries the steps out.

`tests/` runs the library against small stores.

## Modules

- `page`, `field_update`, `transaction`, `claim`, `error`, `id`, `text`,
  `key`, `json`, `grouping`: statements, pages, partial updates, steps and
  what they are built from.
- `tally`, `reference`, `section`: the counting models the laws share.
- `exam_attempt`, `exam_audience`, `exam_question`, `exam_result`,
  `exam_weight`, `question_image`, `offering_subject`: exams.
- `homework`, `homework_file`, `homework_result`, `homework_submission`:
  homework.
- `menu`, `menu_dish`, `meal_attendance`, `meal_booking`, `meal_ledger`: meals.
- `fee_plan`, `fee_plan_assignment`, `payment_ledger`: fees.
- `note`, `note_file`, `rag_message`, `rag_output`, `podcast_job`: notes and
  what is derived from them.
- `pool_question`, `pool_question_image`: the question pool.
- `pomodoro`, `profile`: study stints and the profile that shows them.
- `insight`, `insight_report`, `insight_sweep`, `insight_tables`: derived insight
  rows, and what a read gives back of a write.
- `holiday`, `karne`, `message`, `parent_link`, `person`, `registration`: the
  rest of the school's records.
