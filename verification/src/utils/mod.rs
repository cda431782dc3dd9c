pub mod vulkan;
