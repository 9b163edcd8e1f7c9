use nova_core::gem::TyrObject;
use nova_core::resource::BusHandle;

#[test]
fn gem_object_data_is_built_for_any_size() {
    let dev = BusHandle { addr: 1 };
    assert_eq!(TyrObject::new(dev, 0), Ok(TyrObject {}));
    assert_eq!(TyrObject::new(dev, 4096), Ok(TyrObject {}));
    assert_eq!(TyrObject::new(dev, usize::MAX), Ok(TyrObject {}));
}
