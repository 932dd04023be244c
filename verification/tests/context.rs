use pandora::context::WGPUContext;
use pandora::error::WGPUContextError;

#[test]
fn without_an_adapter_the_context_is_refused() {
    let instance = wgpu::Instance::default();
    let r = WGPUContext::new(instance, None, |_| panic!("no device is to be requested"));
    assert!(matches!(r, Err(WGPUContextError::AdapterNotFound)));
}
