use vstd::prelude::*;
use crate::config::security::SecurityConfig;
use crate::config::security::SecurityView;

verus! {

/// The closed set of source formats a dataset can declare.
#[derive(Debug, Clone, Copy, PartialEq, Eq, Structural)]
pub enum FileFormat {
    Csv,
    Parquet,
    Json,
    /// Fed from a streaming topic instead of files.
    Kafka,
}

impl FileFormat {
    /// Whether the format is read from files in a directory.
    pub open spec fn file_based(self) -> bool {
        self != FileFormat::Kafka
    }

    pub fn is_file_based(&self) -> (b: bool)
        ensures
            b == self.file_based(),
    {
        match self {
            FileFormat::Kafka => false,
            _ => true,
        }
    }
}

/// An optional text in specifications.
pub open spec fn text_of(text: Option<String>) -> Option<Seq<char>> {
    match text {
        Some(t) => Some(t@),
        None => None,
    }
}

fn clone_text(text: &Option<String>) -> (copy: Option<String>)
    ensures
        text_of(copy) == text_of(*text),
{
    match text {
        Some(t) => Some(t.clone()),
        None => None,
    }
}

/// One column of a streaming topic's destination table.
#[derive(Debug)]
pub struct SchemaField {
    /// The name of the column in the store.
    pub column: String,
    /// The store's type for this column (e.g. VARCHAR, INTEGER, DOUBLE).
    pub field_type: String,
    /// A JSON path expression or key pointing to the field in the message.
    pub json_path: String,
}

/// A column in specifications.
pub struct FieldView {
    pub column: Seq<char>,
    pub field_type: Seq<char>,
    pub json_path: Seq<char>,
}

impl View for SchemaField {
    type V = FieldView;

    open spec fn view(&self) -> FieldView {
        FieldView {
            column: self.column@,
            field_type: self.field_type@,
            json_path: self.json_path@,
        }
    }
}

impl DeepView for SchemaField {
    type V = FieldView;

    open spec fn deep_view(&self) -> FieldView {
        self@
    }
}

impl Clone for SchemaField {
    fn clone(&self) -> (copy: Self)
        ensures
            copy@ == self@,
    {
        SchemaField {
            column: self.column.clone(),
            field_type: self.field_type.clone(),
            json_path: self.json_path.clone(),
        }
    }
}

/// Settings of a streaming topic.
#[derive(Debug)]
pub struct KafkaTopicConfig {
    pub brokers: String,
    pub group_id: String,
    pub topic: String,
    pub schema: Vec<SchemaField>,
    pub table_name: String,
}

/// Topic settings in specifications.
pub struct TopicView {
    pub brokers: Seq<char>,
    pub group_id: Seq<char>,
    pub topic: Seq<char>,
    pub schema: Seq<FieldView>,
    pub table_name: Seq<char>,
}

impl View for KafkaTopicConfig {
    type V = TopicView;

    open spec fn view(&self) -> TopicView {
        TopicView {
            brokers: self.brokers@,
            group_id: self.group_id@,
            topic: self.topic@,
            schema: self.schema.deep_view(),
            table_name: self.table_name@,
        }
    }
}

impl Clone for KafkaTopicConfig {
    fn clone(&self) -> (copy: Self)
        ensures
            copy@ == self@,
    {
        let mut schema: Vec<SchemaField> = Vec::new();
        let n = self.schema.len();
        let mut i: usize = 0;
        while i < n
            invariant
                n == self.schema@.len(),
                i <= n,
                schema@.len() == i,
                forall|k: int| 0 <= k < i ==> schema@[k]@ == self.schema@[k]@,
            decreases n - i,
        {
            schema.push(self.schema[i].clone());
            i = i + 1;
        }
        assert(schema.deep_view() =~= self.schema.deep_view());
        KafkaTopicConfig {
            brokers: self.brokers.clone(),
            group_id: self.group_id.clone(),
            topic: self.topic.clone(),
            schema,
            table_name: self.table_name.clone(),
        }
    }
}

/// One data source, mapped to exactly one destination table.
#[derive(Debug)]
pub struct DatasetConfig {
    /// Unique among the datasets; the destination table carries this name.
    pub name: String,
    /// Where the files are; only file-based formats read it.
    pub directory: Option<String>,
    /// Glob of the files to load; the format has a default.
    pub pattern: Option<String>,
    pub format: FileFormat,
    /// Settings of the topic, for the streaming format.
    pub kafka: Option<KafkaTopicConfig>,
}

/// A dataset in specifications.
pub struct DatasetView {
    pub name: Seq<char>,
    pub directory: Option<Seq<char>>,
    pub pattern: Option<Seq<char>>,
    pub format: FileFormat,
    pub kafka: Option<TopicView>,
}

impl DatasetView {
    /// A file-based dataset names its directory; a streaming one carries its
    /// topic settings.
    pub open spec fn well_formed(self) -> bool {
        if self.format.file_based() {
            self.directory is Some
        } else {
            self.kafka is Some
        }
    }
}

impl View for DatasetConfig {
    type V = DatasetView;

    open spec fn view(&self) -> DatasetView {
        DatasetView {
            name: self.name@,
            directory: text_of(self.directory),
            pattern: text_of(self.pattern),
            format: self.format,
            kafka: match self.kafka {
                Some(topic) => Some(topic@),
                None => None,
            },
        }
    }
}

impl DeepView for DatasetConfig {
    type V = DatasetView;

    open spec fn deep_view(&self) -> DatasetView {
        self@
    }
}

impl Clone for DatasetConfig {
    fn clone(&self) -> (copy: Self)
        ensures
            copy@ == self@,
    {
        DatasetConfig {
            name: self.name.clone(),
            directory: clone_text(&self.directory),
            pattern: clone_text(&self.pattern),
            format: self.format,
            kafka: match &self.kafka {
                Some(topic) => Some(topic.clone()),
                None => None,
            },
        }
    }
}

impl DatasetConfig {
    /// Whether the dataset is well formed: a file-based one names its
    /// directory, a streaming one carries its topic settings.
    pub fn is_well_formed(&self) -> (b: bool)
        ensures
            b == self@.well_formed(),
    {
        if self.format.is_file_based() {
            self.directory.is_some()
        } else {
            self.kafka.is_some()
        }
    }
}

/// The whole configuration, as loaded once at startup.
#[derive(Debug)]
pub struct AppConfig {
    pub datasets: Vec<DatasetConfig>,
    pub security: SecurityConfig,
}

/// The configuration in specifications.
pub struct ConfigView {
    /// The datasets, in configuration order.
    pub datasets: Seq<DatasetView>,
    pub security: SecurityView,
}

impl ConfigView {
    /// The dataset names, in configuration order.
    pub open spec fn names(self) -> Seq<Seq<char>> {
        Seq::new(self.datasets.len(), |i: int| self.datasets[i].name)
    }

    /// Each dataset is well formed, and no two share a name.
    pub open spec fn well_formed(self) -> bool {
        &&& forall|i: int| 0 <= i < self.datasets.len() ==> (#[trigger] self.datasets[i]).well_formed()
        &&& forall|i: int, j: int|
            0 <= i < j < self.datasets.len() ==> self.datasets[i].name != self.datasets[j].name
    }
}

impl View for AppConfig {
    type V = ConfigView;

    open spec fn view(&self) -> ConfigView {
        ConfigView { datasets: self.datasets.deep_view(), security: self.security@ }
    }
}

impl AppConfig {
    /// Whether the configuration is well formed: each dataset is, and no two
    /// share a name.
    pub fn is_well_formed(&self) -> (b: bool)
        ensures
            b == self@.well_formed(),
    {
        let n = self.datasets.len();
        let mut i: usize = 0;
        while i < n
            invariant
                n == self.datasets@.len(),
                i <= n,
                forall|k: int| 0 <= k < i ==> (#[trigger] self@.datasets[k]).well_formed(),
                forall|a: int, b: int|
                    0 <= a < b < i ==> self@.datasets[a].name != self@.datasets[b].name,
            decreases n - i,
        {
            if !self.datasets[i].is_well_formed() {
                assert(!self@.datasets[i as int].well_formed());
                return false;
            }
            let mut j: usize = 0;
            while j < i
                invariant
                    n == self.datasets@.len(),
                    i < n,
                    j <= i,
                    forall|a: int| 0 <= a < j ==> self@.datasets[a].name != self@.datasets[i as int].name,
                decreases i - j,
            {
                if self.datasets[j].name == self.datasets[i].name {
                    assert(self@.datasets[j as int].name == self@.datasets[i as int].name);
                    return false;
                }
                j = j + 1;
            }
            i = i + 1;
        }
        true
    }
}

impl Clone for AppConfig {
    fn clone(&self) -> (copy: Self)
        ensures
            copy@ == self@,
    {
        let mut datasets: Vec<DatasetConfig> = Vec::new();
        let n = self.datasets.len();
        let mut i: usize = 0;
        while i < n
            invariant
                n == self.datasets@.len(),
                i <= n,
                datasets@.len() == i,
                forall|k: int| 0 <= k < i ==> datasets@[k]@ == self.datasets@[k]@,
            decreases n - i,
        {
            datasets.push(self.datasets[i].clone());
            i = i + 1;
        }
        assert(datasets.deep_view() =~= self.datasets.deep_view());
        AppConfig { datasets, security: self.security.clone() }
    }
}

} // verus!
