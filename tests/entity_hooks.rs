use lunar_engine::component::{Component, ComponentStore, TypeTag};
use lunar_engine::entity::Entity;

const TEST_TAG: TypeTag = 100;

#[derive(Debug)]
struct TestComponent {
    pub value: i32,
}

#[derive(Debug)]
enum TestStore {
    Test(TestComponent),
}

impl ComponentStore for TestStore {
    fn tag(&self) -> TypeTag {
        TEST_TAG
    }

    fn after_update(self) -> Self {
        let TestStore::Test(t) = self;
        TestStore::Test(TestComponent { value: t.value + 10 })
    }

    fn after_attach(self) -> Self {
        self
    }

    fn after_owner(self, _owner: u64) -> Self {
        self
    }

    fn type_tag(&self) -> TypeTag {
        TEST_TAG
    }

    fn update(&mut self) {
        let TestStore::Test(t) = self;
        t.value += 10;
    }

    fn awawa(&mut self) {}

    fn decatification(&mut self) {}

    fn set_self_reference(&mut self, _owner: u64) {}
}

impl Component<TestStore> for TestComponent {
    fn tag_spec() -> TypeTag {
        TEST_TAG
    }

    fn cast(value: TestStore) -> Self {
        let TestStore::Test(t) = value;
        t
    }

    fn mew_spec() -> TestStore {
        TestStore::Test(TestComponent { value: 0 })
    }

    fn wrap_spec(c: Self) -> TestStore {
        TestStore::Test(c)
    }

    fn wrap(c: Self) -> TestStore {
        TestStore::Test(c)
    }

    fn dependency_count() -> u64 {
        0
    }

    fn dependency_at(_i: u64) -> (TypeTag, &'static str) {
        (0, "")
    }

    fn tag() -> TypeTag {
        TEST_TAG
    }

    fn mew() -> TestStore {
        TestStore::Test(TestComponent { value: 0 })
    }

    fn downcast(value: &TestStore) -> Option<&Self> {
        let TestStore::Test(t) = value;
        Some(t)
    }

    fn dependencies() -> Vec<(TypeTag, &'static str)> {
        Vec::new()
    }
}

#[test]
fn component_update_test() {
    let mut entity = Entity::new();

    entity.add_component::<TestComponent>().unwrap();
    entity.update();

    let c = entity.get_component::<TestComponent>().unwrap();
    assert_eq!(c.get().value, 10);
}

#[test]
fn component_decatification_test() {
    let mut entity = Entity::new();

    entity.add_component::<TestComponent>().unwrap();
    entity.update();

    let c = entity.get_component::<TestComponent>().unwrap();
    assert_eq!(c.get().value, 10);

    entity.decatify();
}

#[test]
fn set_component_replaces_value() {
    let mut entity = Entity::new();
    assert!(entity.set_component(TestComponent { value: 3 }).is_err());
    entity.add_component::<TestComponent>().unwrap();
    entity.set_component(TestComponent { value: 5 }).unwrap();
    entity.update();
    assert_eq!(entity.get_component::<TestComponent>().unwrap().get().value, 15);
}
