use kafka_file_writer::error::{NexusStructureError, WriterModuleCreationError};
use kafka_file_writer::nexus_structure::{
    plan_structure, AttributeValue, NexusFileStructure, NexusGroup, NexusStructureItem, NexusWriterModule, StructureStep,
};
use kafka_file_writer::placed_writer::PlacedWriter;
use kafka_file_writer::writer_module::{NXeventdataConfig, WriterModule, WriterModuleConfig, WriterModuleKind};
use kafka_file_writer::writer_modules::default_registry;

fn group(name: &str, children: Vec<NexusStructureItem>, attributes: Vec<(String, AttributeValue)>) -> NexusStructureItem {
    NexusStructureItem::Group(NexusGroup { name: name.to_string(), children, attributes })
}

fn writer(module: &str, config: &str) -> NexusStructureItem {
    NexusStructureItem::WriterModule(NexusWriterModule { module: module.to_string(), config: config.to_string() })
}

fn text(s: &str) -> AttributeValue {
    AttributeValue::Text(s.to_string())
}

#[test]
fn test_plan_nested_groups_attributes_and_writers() {
    let structure = NexusFileStructure {
        children: vec![group(
            "entry",
            vec![
                group("events", vec![writer("NXevent_data", "{\"topic\": \"ev\"}")], vec![("NX_class".to_string(), text("NXevent_data"))]),
                writer("IXseblock", "{}"),
            ],
            vec![("NX_class".to_string(), text("NXentry")), ("count".to_string(), AttributeValue::Other)],
        )],
        attributes: vec![("title".to_string(), text("a run"))],
    };
    let plan = plan_structure(&structure, &default_registry());
    assert!(plan.failure.is_none());
    assert_eq!(
        plan.steps,
        vec![
            StructureStep::CreateGroup { parent: "/".to_string(), name: "entry".to_string() },
            StructureStep::WriteAttribute { location: "/entry".to_string(), name: "NX_class".to_string(), value: "NXentry".to_string() },
            StructureStep::CreateGroup { parent: "/entry".to_string(), name: "events".to_string() },
            StructureStep::WriteAttribute { location: "/entry/events".to_string(), name: "NX_class".to_string(), value: "NXevent_data".to_string() },
            StructureStep::PlaceWriter {
                location: "/entry/events".to_string(),
                module: NexusWriterModule { module: "NXevent_data".to_string(), config: "{\"topic\": \"ev\"}".to_string() },
                kind: WriterModuleKind::NXeventdata,
            },
            StructureStep::PlaceWriter {
                location: "/entry".to_string(),
                module: NexusWriterModule { module: "IXseblock".to_string(), config: "{}".to_string() },
                kind: WriterModuleKind::IXseblock,
            },
            StructureStep::WriteAttribute { location: "/".to_string(), name: "title".to_string(), value: "a run".to_string() },
            StructureStep::WriteRootDatasetAttributes,
        ]
    );
}

#[test]
fn test_plan_empty_structure() {
    let plan = plan_structure(&NexusFileStructure::default(), &default_registry());
    assert!(plan.failure.is_none());
    assert_eq!(plan.steps, vec![StructureStep::WriteRootDatasetAttributes]);
}

#[test]
fn test_plan_stops_at_invalid_child() {
    let structure = NexusFileStructure {
        children: vec![
            group("a", vec![NexusStructureItem::Invalid("{\"name\":\"foo\",\"type\":\"group_blah_blah_blah\"}".to_string())], vec![]),
            group("b", vec![], vec![]),
        ],
        attributes: vec![],
    };
    let plan = plan_structure(&structure, &default_registry());
    assert_eq!(plan.steps, vec![StructureStep::CreateGroup { parent: "/".to_string(), name: "a".to_string() }]);
    assert_eq!(
        plan.failure,
        Some(NexusStructureError::UnknownChildType {
            invalid_json: "{\"name\":\"foo\",\"type\":\"group_blah_blah_blah\"}".to_string(),
            location: "/a".to_string()
        })
    );
}

#[test]
fn test_plan_unknown_writer_module() {
    let structure = NexusFileStructure { children: vec![writer("amazing_writer", "{}")], attributes: vec![] };
    let plan = plan_structure(&structure, &default_registry());
    assert!(plan.steps.is_empty());
    assert_eq!(
        plan.failure,
        Some(NexusStructureError::UnknownWriterModule { name: "amazing_writer".to_string(), location: "/".to_string() })
    );
}

#[test]
fn test_placed_writer_new() {
    let registry = default_registry();
    let spec = NexusWriterModule { module: "nope".to_string(), config: "{}".to_string() };
    match PlacedWriter::new("/x".to_string(), spec, &registry, Err(WriterModuleCreationError::ConfigInvalid { description: "d".to_string() })) {
        Err(NexusStructureError::UnknownWriterModule { name, location }) => {
            assert_eq!(name, "nope");
            assert_eq!(location, "/x");
        }
        other => panic!("unexpected {:?}", other.map(|_| ())),
    }

    let spec = NexusWriterModule { module: "NXevent_data".to_string(), config: "{}".to_string() };
    let cause = WriterModuleCreationError::ConfigParseError { cause: "missing field `topic`".to_string(), config_type_name: "NXeventdataConfig".to_string() };
    match PlacedWriter::new("/x".to_string(), spec, &registry, Err(cause.clone())) {
        Err(NexusStructureError::WriterModuleCreationError { cause: c, module_name, location }) => {
            assert_eq!(c, cause);
            assert_eq!(module_name, "NXevent_data");
            assert_eq!(location, "/x");
        }
        other => panic!("unexpected {:?}", other.map(|_| ())),
    }

    let spec = NexusWriterModule { module: "NXevent_data".to_string(), config: "{\"topic\":\"t\"}".to_string() };
    let placed = PlacedWriter::new(
        "/entry/events".to_string(),
        spec,
        &registry,
        Ok(WriterModuleConfig::NXeventdata(NXeventdataConfig { topic: "t".to_string() })),
    )
    .unwrap();
    assert_eq!(placed.group(), "/entry/events");
    assert_eq!(placed.subscriptions().len(), 1);
    assert_eq!(placed.subscriptions()[0].topic(), "t");
    assert!(!placed.writer_ref().finished());
}
