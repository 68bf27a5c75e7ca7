//! The data layer of a school backend: which statements each operation sends
//! to the database, what it decides from the answers, and what its
//! transactions keep true of the stored rows.

pub mod claim;
pub mod error;
pub mod exam_attempt;
pub mod exam_audience;
pub mod exam_question;
pub mod exam_result;
pub mod exam_weight;
pub mod fee_plan;
pub mod fee_plan_assignment;
pub mod field_update;
pub mod grouping;
pub mod holiday;
pub mod homework;
pub mod homework_file;
pub mod homework_result;
pub mod homework_submission;
pub mod id;
pub mod insight;
pub mod insight_report;
pub mod insight_sweep;
pub mod insight_tables;
pub mod json;
pub mod karne;
pub mod key;
pub mod meal_attendance;
pub mod meal_booking;
pub mod meal_ledger;
pub mod menu;
pub mod menu_dish;
pub mod message;
pub mod note;
pub mod note_file;
pub mod offering_subject;
pub mod page;
pub mod parent_link;
pub mod payment_ledger;
pub mod person;
pub mod podcast_job;
pub mod pomodoro;
pub mod pool_question;
pub mod pool_question_image;
pub mod profile;
pub mod question_image;
pub mod rag_message;
pub mod rag_output;
pub mod reference;
pub mod registration;
pub mod section;
pub mod sql;
pub mod tally;
pub mod text;
pub mod transaction;
