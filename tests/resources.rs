use oxitrace::descriptors::{
    kernel_bindings, plan_writes, target_rebinding, BindError, BindingSlot, DescriptorKind,
    DescriptorWrite, InfoRef,
};
use oxitrace::resources::{
    MemoryClass, ResourceError, ResourceId, ResourceKind, ResourceRegistry,
};

#[test]
fn destroy_exactly_once() {
    let mut reg = ResourceRegistry::new();
    let a = reg.create(ResourceKind::Buffer(MemoryClass::GpuOnly));
    assert_eq!(a, ResourceId { index: 0 });
    assert_eq!(reg.destroy(a), Ok(()));
    assert_eq!(reg.destroy(a), Err(ResourceError::Destroyed));
    assert_eq!(reg.check_use(a), Err(ResourceError::Destroyed));
    assert_eq!(reg.destroy(ResourceId { index: 7 }), Err(ResourceError::Unknown));
    assert!(reg.all_destroyed());
}

#[test]
fn fill_only_host_visible_buffers() {
    let mut reg = ResourceRegistry::new();
    let scene = reg.create(ResourceKind::Buffer(MemoryClass::GpuOnly));
    let camera = reg.create(ResourceKind::Buffer(MemoryClass::CpuToGpu));
    let image = reg.create(ResourceKind::Image);
    assert_eq!(reg.check_fill(scene), Err(ResourceError::NotHostVisible));
    assert_eq!(reg.check_fill(camera), Ok(()));
    assert_eq!(reg.check_fill(image), Err(ResourceError::NotHostVisible));
    reg.destroy(camera).unwrap();
    assert_eq!(reg.check_fill(camera), Err(ResourceError::Destroyed));
    assert_eq!(reg.check_fill(ResourceId { index: 3 }), Err(ResourceError::Unknown));
}

#[test]
fn teardown_in_reverse_creation_order() {
    let mut reg = ResourceRegistry::new();
    let ids: Vec<ResourceId> = (0..4).map(|_| reg.create(ResourceKind::Image)).collect();
    reg.destroy(ids[1]).unwrap();
    assert_eq!(reg.teardown_order(), vec![ids[3], ids[2], ids[0]]);
    assert!(!reg.all_destroyed());
}

#[test]
fn kernel_writes_index_their_info_lists() {
    let mut reg = ResourceRegistry::new();
    let target = reg.create(ResourceKind::Image);
    let scene = reg.create(ResourceKind::Buffer(MemoryClass::GpuOnly));
    let camera = reg.create(ResourceKind::Buffer(MemoryClass::CpuToGpu));
    let slots = kernel_bindings(target, scene, camera);
    assert_eq!(slots.len(), 3);
    assert_eq!(slots[0].kind, DescriptorKind::StorageImage);
    assert_eq!(slots[0].kind.as_raw(), 3);
    assert_eq!(slots[2].kind.as_raw(), 6);
    let writes = plan_writes(&slots, &reg).unwrap();
    assert_eq!(
        writes,
        vec![
            DescriptorWrite { binding: 0, kind: DescriptorKind::StorageImage, info: InfoRef::Image(0), resource: target },
            DescriptorWrite { binding: 1, kind: DescriptorKind::UniformBuffer, info: InfoRef::Buffer(0), resource: scene },
            DescriptorWrite { binding: 2, kind: DescriptorKind::UniformBuffer, info: InfoRef::Buffer(1), resource: camera },
        ]
    );
    let rebind = plan_writes(&target_rebinding(target), &reg).unwrap();
    assert_eq!(rebind.len(), 1);
    assert_eq!(rebind[0].info, InfoRef::Image(0));
}

#[test]
fn binding_without_resource_is_refused() {
    let mut reg = ResourceRegistry::new();
    let camera = reg.create(ResourceKind::Buffer(MemoryClass::CpuToGpu));
    let slots = vec![
        BindingSlot { binding: 2, kind: DescriptorKind::UniformBuffer, image: None, buffer: Some(camera) },
        BindingSlot { binding: 5, kind: DescriptorKind::UniformBuffer, image: None, buffer: None },
    ];
    assert_eq!(plan_writes(&slots, &reg), Err(BindError::MissingResource { binding: 5 }));
}

#[test]
fn binding_destroyed_resource_is_refused() {
    let mut reg = ResourceRegistry::new();
    let target = reg.create(ResourceKind::Image);
    reg.destroy(target).unwrap();
    assert_eq!(
        plan_writes(&target_rebinding(target), &reg),
        Err(BindError::Resource { binding: 0, error: ResourceError::Destroyed })
    );
}
