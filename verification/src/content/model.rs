//! Model files: the source of a resource's model, made from a template and
//! the resource's names.

use crate::expander::{expand, expanded};
use crate::files::{FileState, FileWrite, IoError};
use crate::naming::{names_of, pascal_case_of, snake_case_of, table_case_of, ResourceNameSet};
use crate::project::{add_rust_file, rust_file_writes};
use crate::registry::registry_outcome;
use vstd::prelude::*;

verus! {

/// The directory that model files go to.
pub const MODELS_DIRECTORY: &'static str = "backend/models";

/// The template of a model file.
pub const MODEL_TEMPLATE: &'static str = "use crate::schema::*;
use crate::diesel::*;

use diesel::QueryResult;
use serde::{Serialize, Deserialize};
use crate::models::*;
use crate::DB;

#[tsync::tsync]
#[derive(Debug, Serialize, Deserialize, Clone, Queryable, Insertable, Identifiable, AsChangeset)]
#[diesel(table_name=$TABLE_NAME)]
pub struct $MODEL_NAME {
  /* -=-=-=-=-=-=-=-=-=-=-=-=-=-=-=-=-=-=-=-=-=-=-=-=-
     Add columns here in the same order as the schema
     (because #[derive(Queryable)] expects this)
     -=-=-=-=-=-=-=-=-=-=-=-=-=-=-=-=-=-=-=-=-=-=-=-=- */
  // pub id: ID,
  // pub created_at: UTC,
  // pub updated_at: UTC,
}

#[tsync::tsync]
#[derive(Debug, Serialize, Deserialize, Clone, Insertable, AsChangeset)]
#[diesel(table_name=$TABLE_NAME)]
pub struct $MODEL_NAMEChangeset {
  /* -=-=-=-=-=-=-=-=-=-=-=-=-=-=-=-=-=-=-=-=-=-=-=-=-
     Don't include non-mutable columns
     (ex: id, created_at/updated_at)
     -=-=-=-=-=-=-=-=-=-=-=-=-=-=-=-=-=-=-=-=-=-=-=-=- */
}

impl $MODEL_NAME {
  pub fn create(db: &DB, item: &$MODEL_NAMEChangeset) -> QueryResult<Self> {
      use crate::schema::$TABLE_NAME::dsl::*;
\x20\x20\x20\x20\x20\x20
      insert_into($TABLE_NAME)
      .values(item)
      .get_result::<$MODEL_NAME>(db)
  }
\x20\x20
  pub fn read(db: &DB, item_id: ID) -> QueryResult<Self> {
      use crate::schema::$TABLE_NAME::dsl::*;
\x20\x20\x20\x20\x20\x20
      $TABLE_NAME.filter(id.eq(item_id)).first::<$MODEL_NAME>(db)
  }
\x20\x20
  pub fn read_all(db: &DB, pagination: &PaginationParams) -> QueryResult<Vec<Self>> {
      use crate::schema::$TABLE_NAME::dsl::*;
\x20\x20
      $TABLE_NAME
          .order(created_at)
          .limit(pagination.page_size)
          .offset(pagination.page * std::cmp::max(pagination.page_size, PaginationParams::MAX_PAGE_SIZE as i64))
          .load::<$MODEL_NAME>(db)
  }
\x20\x20
  pub fn update(db: &DB, item_id: ID, item: &$MODEL_NAMEChangeset) -> QueryResult<Self> {
      use crate::schema::$TABLE_NAME::dsl::*;
\x20\x20
      diesel::update($TABLE_NAME.filter(id.eq(item_id)))
          .set(item)
          .get_result(db)
  }
\x20\x20
  pub fn delete(db: &DB, item_id: ID) -> QueryResult<usize> {
      use crate::schema::$TABLE_NAME::dsl::*;
\x20\x20
      diesel::delete($TABLE_NAME.filter(id.eq(item_id))).execute(db)
  }
}
";

/// The names that a model file is made with.
#[derive(Clone, Debug)]
pub struct ModelConfig {
    pub model_name: String,
    pub table_name: String,
    pub file_name: String,
}

/// The names of a model as character sequences.
pub struct ModelNames {
    pub model_name: Seq<char>,
    pub table_name: Seq<char>,
    pub file_name: Seq<char>,
}

impl View for ModelConfig {
    type V = ModelNames;

    open spec fn view(&self) -> ModelNames {
        ModelNames {
            model_name: self.model_name@,
            table_name: self.table_name@,
            file_name: self.file_name@,
        }
    }
}

/// A model: its names and the source of its file.
#[derive(Clone, Debug)]
pub struct Model {
    pub config: ModelConfig,
    pub file_contents: String,
}

/// A model as character sequences.
pub struct ModelView {
    pub config: ModelNames,
    pub file_contents: Seq<char>,
}

impl View for Model {
    type V = ModelView;

    open spec fn view(&self) -> ModelView {
        ModelView { config: self.config@, file_contents: self.file_contents@ }
    }
}

/// The names of the model of the resource called `resource_name`: the model
/// is named in pascal case, its file and its table after the model's name.
pub open spec fn model_names(resource_name: Seq<char>) -> ModelNames {
    ModelNames {
        model_name: pascal_case_of(resource_name),
        table_name: table_case_of(pascal_case_of(resource_name)),
        file_name: snake_case_of(pascal_case_of(resource_name)),
    }
}

/// The source of the model file of the resource called `resource_name`.
pub open spec fn model_source(resource_name: Seq<char>) -> Seq<char> {
    expanded(MODEL_TEMPLATE@, names_of(resource_name))
}

/// The model of the resource called `resource_name`: its names and the
/// source of its file.
pub open spec fn model_of(resource_name: Seq<char>) -> ModelView {
    ModelView {
        config: model_names(resource_name),
        file_contents: model_source(resource_name),
    }
}

/// The names of the model of the resource called `resource_name`.
pub fn config(resource_name: &str) -> (config: ModelConfig)
    ensures
        config@ == model_names(resource_name@),
{
    let names = ResourceNameSet::derive(resource_name);
    ModelConfig {
        model_name: names.pascal_case,
        file_name: names.snake_case,
        table_name: names.table_case,
    }
}

/// The model of the resource called `resource_name`: its names, and the
/// template with the model name and the table name filled in.
pub fn generate(resource_name: &str) -> (model: Model)
    ensures
        model@ == model_of(resource_name@),
{
    let names = ResourceNameSet::derive(resource_name);
    let file_contents = expand(MODEL_TEMPLATE, &names);
    Model {
        config: ModelConfig {
            model_name: names.pascal_case,
            file_name: names.snake_case,
            table_name: names.table_case,
        },
        file_contents,
    }
}

/// A new model and the files to write for it.
#[derive(Debug)]
pub struct CreatedModel {
    pub resource: Model,
    /// The writes to make, in this order: the registry of the models
    /// directory, then the model file.
    pub writes: Vec<FileWrite>,
}

/// Creates the model of the resource called `resource_name`, given the state
/// in which the registry of the models directory was found: the model, and
/// the writes that put it into the project.
pub fn create(resource_name: &str, registry: &FileState) -> (result: Result<CreatedModel, IoError>)
    ensures
        match registry_outcome(registry@, model_names(resource_name@).file_name) {
            Ok(text) => {
                &&& result matches Ok(created)
                &&& created.resource@ == model_of(resource_name@)
                &&& created.writes@.map_values(|w: FileWrite| w@) == rust_file_writes(
                    MODELS_DIRECTORY@,
                    model_names(resource_name@).file_name,
                    model_source(resource_name@),
                    text,
                )
            },
            Err(error) => result matches Err(e) && e == error,
        },
{
    let resource = generate(resource_name);
    match add_rust_file(
        MODELS_DIRECTORY,
        resource.config.file_name.as_str(),
        resource.file_contents.as_str(),
        registry,
    ) {
        Ok(writes) => Ok(CreatedModel { resource, writes }),
        Err(error) => Err(error),
    }
}

} // verus!
